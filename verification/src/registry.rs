//! The source registry, modeled as an owned snapshot: each source's
//! domain, display name, favicon, capability flags and tags, plus the
//! tag taxonomy.  Handles into the registry are stable indices; the
//! registry is read-only once built, so a handle stays valid for the
//! registry value's lifetime.

use vstd::prelude::*;
use crate::error::BoundaryError;
use crate::error::ErrorChannel;
use crate::flat::CArray;
use crate::models::SourceModel;
use crate::models::TagModel;
use crate::models::source_model_wf;
use crate::models::tag_model_wf;
use crate::structs::Platform;
use crate::structs::Tag;
use crate::structs::create_tags_ptr;
use crate::structs::platform_array_from_models;
use crate::structs::platform_array_matches;
use crate::structs::platform_matches;
use crate::structs::tag_array_matches;
use crate::text::bytes_eq;
use crate::text::copy_bytes;
use crate::text::text_contains;
use crate::text::text_contains_at;

verus! {

/// Whether the taxonomy knows a tag with this integer value.
pub open spec fn known_tag(cat: Seq<TagModel>, v: i32) -> bool {
    exists|i: int| 0 <= i < cat.len() && cat[i].value == v
}

/// The index of the taxonomy entry carrying this value.
pub open spec fn catalog_index_of(cat: Seq<TagModel>, v: i32) -> int {
    choose|k: int| 0 <= k < cat.len() && cat[k].value == v
}

/// The taxonomy entry carrying this value.
pub open spec fn catalog_entry(cat: Seq<TagModel>, v: i32) -> TagModel {
    cat[catalog_index_of(cat, v)]
}

/// Two tag records carrying the same value and the same name text.
pub open spec fn tag_model_like(a: TagModel, b: TagModel) -> bool {
    &&& a.value == b.value
    &&& a.name@ == b.name@
}

/// The first `n` given values with every unknown value silently
/// dropped, in order.
pub open spec fn known_seq(cat: Seq<TagModel>, vals: Seq<i32>, n: int) -> Seq<i32>
    decreases n,
{
    if n <= 0 {
        Seq::empty()
    } else {
        known_seq(cat, vals, n - 1) + (if known_tag(cat, vals[n - 1]) {
            seq![vals[n - 1]]
        } else {
            Seq::empty()
        })
    }
}

/// The taxonomy entries for the first `n` given values, unknown
/// values silently dropped, in order.
pub open spec fn enumed_seq(cat: Seq<TagModel>, vals: Seq<i32>, n: int) -> Seq<TagModel>
    decreases n,
{
    if n <= 0 {
        Seq::empty()
    } else {
        enumed_seq(cat, vals, n - 1) + (if known_tag(cat, vals[n - 1]) {
            seq![catalog_entry(cat, vals[n - 1])]
        } else {
            Seq::empty()
        })
    }
}

/// Whether a source carries a tag with this value.
pub open spec fn source_has_tag(s: SourceModel, v: i32) -> bool {
    exists|i: int| 0 <= i < s.tags@.len() && s.tags@[i].value == v
}

/// The filter: a source is selected when it carries every include
/// tag and none of the exclude tags.
pub open spec fn source_selected(s: SourceModel, inc: Seq<i32>, exc: Seq<i32>) -> bool {
    &&& forall|i: int| 0 <= i < inc.len() ==> source_has_tag(s, inc[i])
    &&& forall|i: int| 0 <= i < exc.len() ==> !source_has_tag(s, exc[i])
}

/// The selected sources among the first `n`, in registry order.
pub open spec fn selected_seq(
    sources: Seq<SourceModel>,
    inc: Seq<i32>,
    exc: Seq<i32>,
    n: int,
) -> Seq<SourceModel>
    decreases n,
{
    if n <= 0 {
        Seq::empty()
    } else {
        selected_seq(sources, inc, exc, n - 1) + (if source_selected(sources[n - 1], inc, exc) {
            seq![sources[n - 1]]
        } else {
            Seq::empty()
        })
    }
}

/// Whether some source in the run owns this domain.
pub open spec fn has_domain(sources: Seq<SourceModel>, d: Seq<u8>) -> bool {
    exists|i: int| 0 <= i < sources.len() && sources[i].domain@ == d
}

/// A well-formed taxonomy: every entry's text is marshalable and
/// values uniquely identify entries.
pub open spec fn catalog_wf(cat: Seq<TagModel>) -> bool {
    &&& forall|i: int| 0 <= i < cat.len() ==> tag_model_wf(#[trigger] cat[i])
    &&& forall|i: int, j: int| 0 <= i < j < cat.len() ==> cat[i].value != cat[j].value
}

/// A well-formed source run: every record's text is marshalable and
/// domains uniquely identify records.
pub open spec fn sources_wf(ss: Seq<SourceModel>) -> bool {
    &&& forall|i: int| 0 <= i < ss.len() ==> source_model_wf(#[trigger] ss[i])
    &&& forall|i: int, j: int| 0 <= i < j < ss.len() ==> ss[i].domain@ != ss[j].domain@
}

proof fn lemma_catalog_push(cat: Seq<TagModel>, t: TagModel)
    requires
        catalog_wf(cat),
        tag_model_wf(t),
        !known_tag(cat, t.value),
    ensures
        catalog_wf(cat.push(t)),
{
    let c1 = cat.push(t);
    assert forall|i: int, j: int| 0 <= i < j < c1.len() implies c1[i].value != c1[j].value by {
        if j == cat.len() as int {
            assert(c1[i] == cat[i]);
            assert(c1[j] == t);
            if cat[i].value == t.value {
                assert(known_tag(cat, t.value));
            }
        } else {
            assert(c1[i] == cat[i]);
            assert(c1[j] == cat[j]);
        }
    }
    assert forall|i: int| 0 <= i < c1.len() implies tag_model_wf(#[trigger] c1[i]) by {
        if i < cat.len() {
            assert(tag_model_wf(cat[i]));
        } else {
            assert(c1[i] == t);
        }
    }
}

proof fn lemma_sources_push(ss: Seq<SourceModel>, s: SourceModel)
    requires
        sources_wf(ss),
        source_model_wf(s),
        !has_domain(ss, s.domain@),
    ensures
        sources_wf(ss.push(s)),
{
    let s1 = ss.push(s);
    assert forall|i: int, j: int| 0 <= i < j < s1.len() implies s1[i].domain@ != s1[j].domain@ by {
        if j == ss.len() as int {
            assert(s1[i] == ss[i]);
            assert(s1[j] == s);
            if ss[i].domain@ == s.domain@ {
                assert(has_domain(ss, s.domain@));
            }
        } else {
            assert(s1[i] == ss[i]);
            assert(s1[j] == ss[j]);
        }
    }
    assert forall|i: int| 0 <= i < s1.len() implies source_model_wf(#[trigger] s1[i]) by {
        if i < ss.len() {
            assert(source_model_wf(ss[i]));
        } else {
            assert(s1[i] == s);
        }
    }
}

/// An opaque handle to one extractor: a stable index into the
/// registry that produced it, valid as long as that registry value
/// lives.
#[derive(Clone, Copy, Debug, PartialEq, Eq, Structural)]
pub struct ExtractorHandle {
    pub index: usize,
}

/// The registry snapshot: the enumerated sources and the tag
/// taxonomy.
pub struct Registry {
    sources: Vec<SourceModel>,
    catalog: Vec<TagModel>,
}

impl Registry {
    /// The enumerated sources, in registry order.
    pub closed spec fn sources(self) -> Seq<SourceModel> {
        self.sources@
    }

    /// The tag taxonomy.
    pub closed spec fn catalog(self) -> Seq<TagModel> {
        self.catalog@
    }

    /// Well-formed: every record's text is marshalable, domains
    /// uniquely identify sources, and tag values uniquely identify
    /// taxonomy entries.
    pub open spec fn wf(self) -> bool {
        &&& sources_wf(self.sources())
        &&& catalog_wf(self.catalog())
    }

    /// An empty registry.
    pub fn new() -> (r: Registry)
        ensures
            r.wf(),
            r.sources() == Seq::<SourceModel>::empty(),
            r.catalog() == Seq::<TagModel>::empty(),
    {
        Registry { sources: Vec::new(), catalog: Vec::new() }
    }

    /// Find the taxonomy entry carrying this value.
    fn catalog_lookup(&self, v: i32) -> (r: Option<usize>)
        ensures
            match r {
                Some(j) => j < self.catalog().len() && self.catalog()[j as int].value == v
                    && known_tag(self.catalog(), v),
                None => !known_tag(self.catalog(), v),
            },
    {
        let n = self.catalog.len();
        let mut i: usize = 0;
        while i < n
            invariant
                n == self.catalog().len(),
                i <= n,
                forall|j: int| 0 <= j < i ==> self.catalog()[j].value != v,
            decreases n - i,
        {
            if self.catalog[i].value == v {
                return Some(i);
            }
            i = i + 1;
        }
        None
    }

    /// Add one taxonomy entry; an entry whose value is already known
    /// is refused, keeping values canonical identities.
    pub fn add_tag(&mut self, t: TagModel) -> (added: bool)
        requires
            old(self).wf(),
            tag_model_wf(t),
        ensures
            final(self).wf(),
            final(self).sources() == old(self).sources(),
            added == !known_tag(old(self).catalog(), t.value),
            added ==> final(self).catalog() == old(self).catalog().push(t),
            !added ==> final(self).catalog() == old(self).catalog(),
    {
        match self.catalog_lookup(t.value) {
            Some(_) => false,
            None => {
                proof {
                    lemma_catalog_push(self.catalog(), t);
                }
                self.catalog.push(t);
                true
            },
        }
    }

    /// Add one source; a source whose domain is already registered is
    /// refused, keeping domains unique keys.
    pub fn add_source(&mut self, s: SourceModel) -> (added: bool)
        requires
            old(self).wf(),
            source_model_wf(s),
        ensures
            final(self).wf(),
            final(self).catalog() == old(self).catalog(),
            added == !has_domain(old(self).sources(), s.domain@),
            added ==> final(self).sources() == old(self).sources().push(s),
            !added ==> final(self).sources() == old(self).sources(),
    {
        let n = self.sources.len();
        let mut i: usize = 0;
        while i < n
            invariant
                self.wf(),
                self == old(self),
                n == self.sources().len(),
                i <= n,
                forall|j: int| 0 <= j < i ==> self.sources()[j].domain@ != s.domain@,
            decreases n - i,
        {
            if bytes_eq(&self.sources[i].domain, &s.domain) {
                return false;
            }
            i = i + 1;
        }
        proof {
            lemma_sources_push(self.sources(), s);
        }
        self.sources.push(s);
        true
    }

    /// Convert the full source list for the caller.  Never fails.
    pub fn platforms(&self) -> (a: CArray<Platform>)
        requires
            self.wf(),
        ensures
            platform_array_matches(a, self.sources()),
            a.has_block(),
    {
        platform_array_from_models(&self.sources)
    }

    /// Convert the full tag taxonomy for the caller.  Never fails.
    pub fn tags(&self) -> (a: CArray<Tag>)
        requires
            self.wf(),
        ensures
            tag_array_matches(a, self.catalog()),
            a.has_block(),
    {
        create_tags_ptr(&self.catalog)
    }

    /// Resolve integer tag values to taxonomy entries, silently
    /// dropping unknown values.
    pub fn enumed_tags(&self, values: &Vec<i32>) -> (r: Vec<TagModel>)
        requires
            self.wf(),
        ensures
            ({
                let e = enumed_seq(self.catalog(), values@, values@.len() as int);
                &&& r@.len() == e.len()
                &&& forall|i: int| 0 <= i < e.len() ==> tag_model_like(#[trigger] r@[i], e[i])
            }),
    {
        let mut r: Vec<TagModel> = Vec::new();
        let n = values.len();
        let mut i: usize = 0;
        while i < n
            invariant
                self.wf(),
                n == values@.len(),
                i <= n,
                r@.len() == enumed_seq(self.catalog(), values@, i as int).len(),
                forall|j: int|
                    0 <= j < r@.len() ==> tag_model_like(
                        #[trigger] r@[j],
                        enumed_seq(self.catalog(), values@, i as int)[j],
                    ),
            decreases n - i,
        {
            let ghost cat = self.catalog();
            let ghost prev = enumed_seq(cat, values@, i as int);
            let v = values[i];
            match self.catalog_lookup(v) {
                Some(j) => {
                    proof {
                        let k = catalog_index_of(cat, v);
                        assert(0 <= k < cat.len() && cat[k].value == v);
                        if j as int != k {
                            assert(cat[j as int].value != cat[k].value);
                        }
                        assert(j as int == k);
                        assert(enumed_seq(cat, values@, i + 1) == prev + seq![
                            catalog_entry(cat, v),
                        ]);
                    }
                    let entry = TagModel {
                        value: self.catalog[j].value,
                        name: copy_bytes(&self.catalog[j].name),
                    };
                    r.push(entry);
                },
                None => {
                    proof {
                        assert(enumed_seq(cat, values@, i + 1) == prev + Seq::<TagModel>::empty());
                        assert(prev + Seq::<TagModel>::empty() =~= prev);
                    }
                },
            }
            i = i + 1;
        }
        r
    }

    /// The known values among the given ones, in order.
    fn known_values(&self, values: &Vec<i32>) -> (r: Vec<i32>)
        requires
            self.wf(),
        ensures
            r@ == known_seq(self.catalog(), values@, values@.len() as int),
    {
        let mut r: Vec<i32> = Vec::new();
        let n = values.len();
        let mut i: usize = 0;
        while i < n
            invariant
                self.wf(),
                n == values@.len(),
                i <= n,
                r@ == known_seq(self.catalog(), values@, i as int),
            decreases n - i,
        {
            let ghost cat = self.catalog();
            let ghost prev = known_seq(cat, values@, i as int);
            let v = values[i];
            match self.catalog_lookup(v) {
                Some(_) => {
                    r.push(v);
                    proof {
                        assert(known_seq(cat, values@, i + 1) == prev + seq![values@[i as int]]);
                        assert(r@ =~= prev + seq![values@[i as int]]);
                    }
                },
                None => {
                    proof {
                        assert(known_seq(cat, values@, i + 1) == prev + Seq::<i32>::empty());
                        assert(r@ =~= prev + Seq::<i32>::empty());
                    }
                },
            }
            i = i + 1;
        }
        r
    }

    /// Filter the registry: keep each source that carries every
    /// (known) include tag and none of the (known) exclude tags, and
    /// convert the kept records.  Unknown tag values are silently
    /// dropped from both lists.  Never fails.
    pub fn find_platforms(&self, includes: &Vec<i32>, excludes: &Vec<i32>) -> (a: CArray<
        Platform,
    >)
        requires
            self.wf(),
        ensures
            ({
                let inc = known_seq(self.catalog(), includes@, includes@.len() as int);
                let exc = known_seq(self.catalog(), excludes@, excludes@.len() as int);
                &&& platform_array_matches(
                    a,
                    selected_seq(self.sources(), inc, exc, self.sources().len() as int),
                )
                &&& a.has_block()
            }),
    {
        let inc = self.known_values(includes);
        let exc = self.known_values(excludes);
        let mut items: Vec<Platform> = Vec::new();
        let n = self.sources.len();
        let mut i: usize = 0;
        while i < n
            invariant
                self.wf(),
                n == self.sources().len(),
                i <= n,
                inc@ == known_seq(self.catalog(), includes@, includes@.len() as int),
                exc@ == known_seq(self.catalog(), excludes@, excludes@.len() as int),
                items@.len() == selected_seq(self.sources(), inc@, exc@, i as int).len(),
                forall|j: int|
                    0 <= j < items@.len() ==> platform_matches(
                        #[trigger] items@[j],
                        selected_seq(self.sources(), inc@, exc@, i as int)[j],
                    ),
            decreases n - i,
        {
            let ghost prev = selected_seq(self.sources(), inc@, exc@, i as int);
            if source_admits(&self.sources[i], &inc, &exc) {
                items.push(Platform::from_model(&self.sources[i]));
                proof {
                    assert(selected_seq(self.sources(), inc@, exc@, i + 1) == prev + seq![
                        self.sources()[i as int],
                    ]);
                }
            } else {
                proof {
                    assert(selected_seq(self.sources(), inc@, exc@, i + 1) == prev + Seq::<
                        SourceModel,
                    >::empty());
                    assert(prev + Seq::<SourceModel>::empty() =~= prev);
                }
            }
            i = i + 1;
        }
        CArray::from_vec(items)
    }

    /// Resolve a domain to an extractor handle.  Fails exactly when
    /// no source owns the domain; the failure is recorded in the
    /// error channel with a reason naming the domain, and a success
    /// leaves the channel untouched.
    pub fn get_extr(&self, chan: &mut ErrorChannel, domain: &Vec<u8>) -> (r: Result<
        ExtractorHandle,
        BoundaryError,
    >)
        ensures
            match r {
                Ok(h) => {
                    &&& has_domain(self.sources(), domain@)
                    &&& h.index < self.sources().len()
                    &&& self.sources()[h.index as int].domain@ == domain@
                    &&& final(chan).state() == old(chan).state()
                },
                Err(e) => {
                    &&& !has_domain(self.sources(), domain@)
                    &&& e == BoundaryError::SourceNotFound
                    &&& final(chan).state() matches Some(m) && m.len() > 0 && text_contains(
                        m,
                        domain@,
                    )
                },
            },
    {
        let n = self.sources.len();
        let mut i: usize = 0;
        while i < n
            invariant
                n == self.sources().len(),
                i <= n,
                forall|j: int| 0 <= j < i ==> self.sources()[j].domain@ != domain@,
            decreases n - i,
        {
            if bytes_eq(&self.sources[i].domain, domain) {
                return Ok(ExtractorHandle { index: i });
            }
            i = i + 1;
        }
        let msg = not_found_message(domain);
        chan.update_last_error(msg);
        Err(BoundaryError::SourceNotFound)
    }
}

/// Whether a source carries a tag with this value.
fn has_tag_value(s: &SourceModel, v: i32) -> (r: bool)
    ensures
        r == source_has_tag(*s, v),
{
    let n = s.tags.len();
    let mut i: usize = 0;
    while i < n
        invariant
            n == s.tags@.len(),
            i <= n,
            forall|j: int| 0 <= j < i ==> s.tags@[j].value != v,
        decreases n - i,
    {
        if s.tags[i].value == v {
            return true;
        }
        i = i + 1;
    }
    false
}

/// Whether the filter keeps this source.
fn source_admits(s: &SourceModel, inc: &Vec<i32>, exc: &Vec<i32>) -> (r: bool)
    ensures
        r == source_selected(*s, inc@, exc@),
{
    let n_inc = inc.len();
    let mut i: usize = 0;
    while i < n_inc
        invariant
            n_inc == inc@.len(),
            i <= n_inc,
            forall|j: int| 0 <= j < i ==> source_has_tag(*s, inc@[j]),
        decreases n_inc - i,
    {
        if !has_tag_value(s, inc[i]) {
            return false;
        }
        i = i + 1;
    }
    let n_exc = exc.len();
    let mut k: usize = 0;
    while k < n_exc
        invariant
            n_exc == exc@.len(),
            k <= n_exc,
            forall|j: int| 0 <= j < i ==> source_has_tag(*s, inc@[j]),
            i == inc@.len(),
            forall|j: int| 0 <= j < k ==> !source_has_tag(*s, exc@[j]),
        decreases n_exc - k,
    {
        if has_tag_value(s, exc[k]) {
            return false;
        }
        k = k + 1;
    }
    true
}

/// The reason text recorded when no source owns a requested domain;
/// it names the domain.
fn not_found_message(domain: &Vec<u8>) -> (m: Vec<u8>)
    ensures
        m@.len() > 0,
        text_contains(m@, domain@),
{
    let mut m: Vec<u8> = Vec::new();
    // the ASCII bytes of "source not found: "
    m.push(115u8);
    m.push(111u8);
    m.push(117u8);
    m.push(114u8);
    m.push(99u8);
    m.push(101u8);
    m.push(32u8);
    m.push(110u8);
    m.push(111u8);
    m.push(116u8);
    m.push(32u8);
    m.push(102u8);
    m.push(111u8);
    m.push(117u8);
    m.push(110u8);
    m.push(100u8);
    m.push(58u8);
    m.push(32u8);
    let ghost prefix = m@;
    let n = domain.len();
    let mut i: usize = 0;
    while i < n
        invariant
            n == domain@.len(),
            i <= n,
            m@ == prefix + domain@.take(i as int),
            prefix.len() == 18,
        decreases n - i,
    {
        m.push(domain[i]);
        proof {
            assert(m@ =~= prefix + domain@.take(i + 1));
        }
        i = i + 1;
    }
    proof {
        assert(m@ =~= prefix + domain@);
        assert(m@.subrange(18, 18 + domain@.len() as int) =~= domain@);
        assert(text_contains_at(m@, domain@, 18));
    }
    m
}

/// With no include and no exclude constraint the filter keeps the
/// first `n` sources unchanged.
proof fn lemma_selected_seq_no_constraint_upto(sources: Seq<SourceModel>, n: int)
    requires
        0 <= n <= sources.len(),
    ensures
        selected_seq(sources, Seq::<i32>::empty(), Seq::<i32>::empty(), n) == sources.take(n),
    decreases n,
{
    if n <= 0 {
        assert(selected_seq(sources, Seq::<i32>::empty(), Seq::<i32>::empty(), n) =~= sources.take(
            n,
        ));
    } else {
        lemma_selected_seq_no_constraint_upto(sources, n - 1);
        assert(source_selected(sources[n - 1], Seq::<i32>::empty(), Seq::<i32>::empty()));
        assert(sources.take(n - 1) + seq![sources[n - 1]] =~= sources.take(n));
    }
}

/// Finding sources with no constraints yields the full registry: the
/// records `find_platforms` describes for empty include and exclude
/// lists are exactly the records `platforms` describes.
pub proof fn lemma_find_platforms_no_constraint(sources: Seq<SourceModel>)
    ensures
        selected_seq(sources, Seq::<i32>::empty(), Seq::<i32>::empty(), sources.len() as int)
            == sources,
{
    lemma_selected_seq_no_constraint_upto(sources, sources.len() as int);
    assert(sources.take(sources.len() as int) =~= sources);
}

} // verus!
