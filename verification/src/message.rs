//! One telemetry sample: a capture timestamp, the measurement's source name,
//! string tags (dimensions) and named metric values. Tag and metric keys are
//! kept sorted and unique, so rendering is deterministic.
use vstd::prelude::*;
use vstd::string::StrSliceExecFns;
use vstd::string::StringExecFns;

use crate::assoc::assoc_map;
use crate::assoc::find_value;
use crate::assoc::insert_sorted;
use crate::assoc::keys_sorted;
use crate::value::spec_render;
use crate::value::PayloadValue;

verus! {

/// What chrono renders for a millisecond UTC timestamp in RFC 3339 form;
/// the empty string for a timestamp chrono cannot represent.
pub uninterp spec fn rfc3339_of(ms: i64) -> Seq<char>;

/// Relies on chrono's `DateTime::from_timestamp_millis` and `to_rfc3339`:
/// the rendering depends on the millisecond timestamp alone. A timestamp
/// outside chrono's representable range yields the empty string.
#[verifier::external_body]
fn format_rfc3339(ms: i64) -> (r: String)
    ensures
        r@ == rfc3339_of(ms),
{
    match chrono::DateTime::<chrono::Utc>::from_timestamp_millis(ms) {
        Some(t) => t.to_rfc3339(),
        None => String::new(),
    }
}

/// Relies on chrono's `Utc::now` for the capture instant; nothing is assumed
/// of the clock's reading.
#[verifier::external_body]
fn now_millis() -> (r: i64) {
    chrono::Utc::now().timestamp_millis()
}

/// One sample flowing from a probe to a sink.
#[derive(Debug)]
pub struct Message {
    timestamp_ms: i64,
    source: String,
    tags: Vec<(String, String)>,
    metrics: Vec<(String, PayloadValue)>,
}

/// The key=value pairs of the tag list, oldest-sorted-first, joined by
/// single spaces.
pub open spec fn spec_join_tags(s: Seq<(String, String)>) -> Seq<char>
    decreases s.len(),
{
    if s.len() == 0 {
        Seq::empty()
    } else if s.len() == 1 {
        s[0].0@ + seq!['='] + s[0].1@
    } else {
        spec_join_tags(s.drop_last()) + seq![' '] + s.last().0@ + seq!['='] + s.last().1@
    }
}

/// The key=value pairs of the metric list, values rendered, joined by
/// single spaces.
pub open spec fn spec_join_metrics(s: Seq<(String, PayloadValue)>) -> Seq<char>
    decreases s.len(),
{
    if s.len() == 0 {
        Seq::empty()
    } else if s.len() == 1 {
        s[0].0@ + seq!['='] + spec_render(s[0].1)
    } else {
        spec_join_metrics(s.drop_last()) + seq![' '] + s.last().0@ + seq!['='] + spec_render(
            s.last().1,
        )
    }
}

/// The display form of a message:
/// `[<rfc3339>, source=<source> <tags>] <metrics>`.
pub open spec fn spec_display(m: Message) -> Seq<char> {
    seq!['['] + rfc3339_of(m.timestamp_spec()) + ", source="@ + m.source_view() + seq![' ']
        + spec_join_tags(m.tags_seq()) + "] "@ + spec_join_metrics(m.metrics_seq())
}

/// A message may be handed to a sink only well-formed and carrying at
/// least one metric.
pub open spec fn ready_for_sink(m: Message) -> bool {
    m.wf() && m.metrics_seq().len() > 0
}

/// Two messages carry the same sample: equal timestamp, source, tags and
/// metrics at the model level.
pub open spec fn same_sample(a: Message, b: Message) -> bool {
    &&& a.timestamp_spec() == b.timestamp_spec()
    &&& a.source_view() == b.source_view()
    &&& a.tags_seq() == b.tags_seq()
    &&& a.metrics_seq() == b.metrics_seq()
}

impl Message {
    /// The capture timestamp, in milliseconds since the Unix epoch, UTC.
    pub closed spec fn timestamp_spec(&self) -> i64 {
        self.timestamp_ms
    }

    /// The measurement source name.
    pub closed spec fn source_view(&self) -> Seq<char> {
        self.source@
    }

    /// The tag entries, sorted by key.
    pub closed spec fn tags_seq(&self) -> Seq<(String, String)> {
        self.tags@
    }

    /// The metric entries, sorted by key.
    pub closed spec fn metrics_seq(&self) -> Seq<(String, PayloadValue)> {
        self.metrics@
    }

    /// The mapping from tag names to tag values.
    pub closed spec fn tag_map(&self) -> Map<Seq<char>, Seq<char>> {
        assoc_map(self.tags@).map_values(|v: String| v@)
    }

    /// The mapping from metric names to metric values.
    pub closed spec fn metric_map(&self) -> Map<Seq<char>, PayloadValue> {
        assoc_map(self.metrics@)
    }

    /// Well-formedness: a non-empty source name, and tag and metric keys
    /// sorted strictly increasing (hence unique).
    pub closed spec fn wf(&self) -> bool {
        &&& self.source@.len() > 0
        &&& keys_sorted(self.tags@)
        &&& keys_sorted(self.metrics@)
    }

    /// Creates an empty sample for a measurement source, stamped with the
    /// capture instant.
    pub fn new(source: &str) -> (r: Message)
        requires
            source@.len() > 0,
        ensures
            r.wf(),
            r.source_view() == source@,
            r.tags_seq() == Seq::<(String, String)>::empty(),
            r.metrics_seq() == Seq::<(String, PayloadValue)>::empty(),
            r.tag_map() =~= Map::<Seq<char>, Seq<char>>::empty(),
            r.metric_map() =~= Map::<Seq<char>, PayloadValue>::empty(),
    {
        let r = Message {
            timestamp_ms: now_millis(),
            source: source.to_owned(),
            tags: Vec::new(),
            metrics: Vec::new(),
        };
        proof {
            assert(r.tags@ =~= Seq::<(String, String)>::empty());
            assert(r.metrics@ =~= Seq::<(String, PayloadValue)>::empty());
        }
        r
    }

    /// Sets a tag, replacing any previous value under the same name.
    pub fn insert_tag(&mut self, name: &str, value: &str)
        requires
            old(self).wf(),
        ensures
            final(self).wf(),
            final(self).tag_map() == old(self).tag_map().insert(name@, value@),
            final(self).metrics_seq() == old(self).metrics_seq(),
            final(self).metric_map() == old(self).metric_map(),
            final(self).source_view() == old(self).source_view(),
            final(self).timestamp_spec() == old(self).timestamp_spec(),
            final(self).tags_seq().len() >= 1,
    {
        let owned: String = value.to_owned();
        insert_sorted(&mut self.tags, name, owned);
        proof {
            let f = |v: String| v@;
            assert(assoc_map(self.tags@).map_values(f) =~= assoc_map(old(self).tags@).map_values(
                f,
            ).insert(name@, value@));
        }
    }

    /// Sets a metric, replacing any previous value under the same name.
    pub fn insert_metric(&mut self, name: &str, value: PayloadValue)
        requires
            old(self).wf(),
        ensures
            final(self).wf(),
            final(self).metric_map() == old(self).metric_map().insert(name@, value),
            final(self).tags_seq() == old(self).tags_seq(),
            final(self).tag_map() == old(self).tag_map(),
            final(self).source_view() == old(self).source_view(),
            final(self).timestamp_spec() == old(self).timestamp_spec(),
            final(self).metrics_seq().len() >= 1,
    {
        insert_sorted(&mut self.metrics, name, value);
    }

    /// The tag entries, sorted by name.
    pub fn tags(&self) -> (r: &Vec<(String, String)>)
        ensures
            r@ == self.tags_seq(),
    {
        &self.tags
    }

    /// The metric entries, sorted by name. A message that would offer no
    /// metrics must never get this far.
    pub fn metrics(&self) -> (r: &Vec<(String, PayloadValue)>)
        requires
            self.metrics_seq().len() > 0,
        ensures
            r@ == self.metrics_seq(),
    {
        &self.metrics
    }

    /// Looks a tag up by name.
    pub fn get_tag(&self, name: &str) -> (r: Option<&String>)
        requires
            self.wf(),
        ensures
            match r {
                Some(v) => self.tag_map().contains_key(name@) && v@ == self.tag_map()[name@],
                None => !self.tag_map().contains_key(name@),
            },
    {
        let r = find_value(&self.tags, name);
        proof {
            let f = |v: String| v@;
            if assoc_map(self.tags@).contains_key(name@) {
                assert(self.tag_map()[name@] == f(assoc_map(self.tags@)[name@]));
            }
        }
        r
    }

    /// Looks a metric up by name.
    pub fn get_metric(&self, name: &str) -> (r: Option<&PayloadValue>)
        requires
            self.wf(),
        ensures
            match r {
                Some(v) => self.metric_map().contains_key(name@) && *v == self.metric_map()[name@],
                None => !self.metric_map().contains_key(name@),
            },
    {
        find_value(&self.metrics, name)
    }

    /// How many metrics the message carries.
    pub fn metric_count(&self) -> (r: usize)
        ensures
            r == self.metrics_seq().len(),
    {
        self.metrics.len()
    }

    /// The measurement source name.
    pub fn source(&self) -> (r: &String)
        ensures
            r@ == self.source_view(),
    {
        &self.source
    }

    /// The capture timestamp in milliseconds since the Unix epoch.
    pub fn timestamp(&self) -> (r: i64)
        ensures
            r == self.timestamp_spec(),
    {
        self.timestamp_ms
    }

    /// The capture timestamp rendered in RFC 3339 form.
    pub fn timestamp_rfc3339(&self) -> (r: String)
        ensures
            r@ == rfc3339_of(self.timestamp_spec()),
    {
        format_rfc3339(self.timestamp_ms)
    }

    /// Renders the tags as space-separated `name=value` pairs.
    pub fn format_tags(&self) -> (r: String)
        ensures
            r@ == spec_join_tags(self.tags_seq()),
    {
        format_pairs_tags(&self.tags)
    }

    /// Renders the metrics as space-separated `name=value` pairs.
    pub fn format_metrics(&self) -> (r: String)
        requires
            self.metrics_seq().len() > 0,
        ensures
            r@ == spec_join_metrics(self.metrics_seq()),
    {
        format_pairs_metrics(&self.metrics)
    }

    /// Renders the whole message for display:
    /// `[<rfc3339>, source=<source> <tags>] <metrics>`.
    pub fn render(&self) -> (r: String)
        requires
            self.metrics_seq().len() > 0,
        ensures
            r@ == spec_display(*self),
    {
        let mut r: String = "[".to_owned();
        r.append(self.timestamp_rfc3339().as_str());
        r.append(", source=");
        r.append(self.source.as_str());
        r.append(" ");
        r.append(self.format_tags().as_str());
        r.append("] ");
        r.append(self.format_metrics().as_str());
        proof {
            reveal_strlit("[");
            reveal_strlit(" ");
            reveal_strlit(", source=");
            reveal_strlit("] ");
            assert("["@ =~= seq!['[']);
            assert(" "@ =~= seq![' ']);
            assert(r@ =~= spec_display(*self));
        }
        r
    }

    /// Decides at run time whether a message may be handed to a sink.
    pub fn ready(&self) -> (r: bool)
        ensures
            r == ready_for_sink(*self),
    {
        if self.source.as_str().is_empty() {
            return false;
        }
        if self.metrics.len() == 0 {
            return false;
        }
        let tags_ok = check_sorted_tags(&self.tags);
        if !tags_ok {
            return false;
        }
        check_sorted_metrics(&self.metrics)
    }
}

proof fn lemma_join_tags_congruent(s: Seq<(String, String)>, t: Seq<(String, String)>)
    requires
        s.len() == t.len(),
        forall|i: int|
            0 <= i < s.len() ==> (#[trigger] s[i].0@) == t[i].0@ && s[i].1@ == t[i].1@,
    ensures
        spec_join_tags(s) == spec_join_tags(t),
    decreases s.len(),
{
    if s.len() > 0 {
        assert(forall|i: int|
            0 <= i < s.drop_last().len() ==> (#[trigger] s.drop_last()[i].0@)
                == t.drop_last()[i].0@ && s.drop_last()[i].1@ == t.drop_last()[i].1@);
        lemma_join_tags_congruent(s.drop_last(), t.drop_last());
        assert(s[s.len() - 1].0@ == t[s.len() - 1].0@ && s[s.len() - 1].1@ == t[s.len()
            - 1].1@);
    }
}

proof fn lemma_join_metrics_congruent(
    s: Seq<(String, PayloadValue)>,
    t: Seq<(String, PayloadValue)>,
)
    requires
        s.len() == t.len(),
        forall|i: int|
            0 <= i < s.len() ==> (#[trigger] s[i].0@) == t[i].0@ && s[i].1 == t[i].1,
    ensures
        spec_join_metrics(s) == spec_join_metrics(t),
    decreases s.len(),
{
    if s.len() > 0 {
        assert(forall|i: int|
            0 <= i < s.drop_last().len() ==> (#[trigger] s.drop_last()[i].0@)
                == t.drop_last()[i].0@ && s.drop_last()[i].1 == t.drop_last()[i].1);
        lemma_join_metrics_congruent(s.drop_last(), t.drop_last());
        assert(s[s.len() - 1].0@ == t[s.len() - 1].0@ && s[s.len() - 1].1 == t[s.len() - 1].1);
    }
}

/// Deterministic rendering: a well-formed message's display form is
/// determined by its model alone — the timestamp, the source, and the tag
/// and metric mappings — never by the order in which tags or metrics were
/// inserted.
pub proof fn lemma_display_deterministic(a: &Message, b: &Message)
    requires
        a.wf(),
        b.wf(),
        a.timestamp_spec() == b.timestamp_spec(),
        a.source_view() == b.source_view(),
        a.tag_map() == b.tag_map(),
        a.metric_map() == b.metric_map(),
    ensures
        spec_display(*a) == spec_display(*b),
{
    let ftag = |v: String| v@;
    assert(assoc_map(a.tags@).map_values(ftag) =~= assoc_map(b.tags@).map_values(ftag));
    crate::assoc::lemma_sorted_assoc_canonical(a.tags@, b.tags@, ftag);
    assert forall|i: int|
        0 <= i < a.tags@.len() implies (#[trigger] a.tags@[i].0@) == b.tags@[i].0@
        && a.tags@[i].1@ == b.tags@[i].1@ by {
        assert(a.tags@[i].0@ == b.tags@[i].0@);
        assert(ftag(a.tags@[i].1) == ftag(b.tags@[i].1));
    }
    lemma_join_tags_congruent(a.tags@, b.tags@);
    let fmet = |v: PayloadValue| v;
    assert(assoc_map(a.metrics@).map_values(fmet) =~= assoc_map(a.metrics@));
    assert(assoc_map(b.metrics@).map_values(fmet) =~= assoc_map(b.metrics@));
    crate::assoc::lemma_sorted_assoc_canonical(a.metrics@, b.metrics@, fmet);
    lemma_join_metrics_congruent(a.metrics@, b.metrics@);
}

impl Clone for Message {
    fn clone(&self) -> (r: Self)
        ensures
            same_sample(r, *self),
            r.timestamp_spec() == self.timestamp_spec(),
            r.source_view() == self.source_view(),
            r.tags_seq() == self.tags_seq(),
            r.metrics_seq() == self.metrics_seq(),
            r.wf() == self.wf(),
    {
        let r = Message {
            timestamp_ms: self.timestamp_ms,
            source: self.source.clone(),
            tags: clone_tag_list(&self.tags),
            metrics: clone_metric_list(&self.metrics),
        };
        r
    }
}

fn clone_tag_list(v: &Vec<(String, String)>) -> (r: Vec<(String, String)>)
    ensures
        r@ == v@,
{
    let mut r: Vec<(String, String)> = Vec::new();
    let mut i: usize = 0;
    while i < v.len()
        invariant
            i <= v@.len(),
            r@ =~= v@.take(i as int),
        decreases v@.len() - i,
    {
        r.push((v[i].0.clone(), v[i].1.clone()));
        proof {
            assert(r@ =~= v@.take(i as int + 1));
        }
        i = i + 1;
    }
    proof {
        assert(v@.take(v@.len() as int) =~= v@);
    }
    r
}

fn clone_metric_list(v: &Vec<(String, PayloadValue)>) -> (r: Vec<(String, PayloadValue)>)
    ensures
        r@ == v@,
{
    let mut r: Vec<(String, PayloadValue)> = Vec::new();
    let mut i: usize = 0;
    while i < v.len()
        invariant
            i <= v@.len(),
            r@ =~= v@.take(i as int),
        decreases v@.len() - i,
    {
        r.push((v[i].0.clone(), v[i].1.clone()));
        proof {
            assert(r@ =~= v@.take(i as int + 1));
        }
        i = i + 1;
    }
    proof {
        assert(v@.take(v@.len() as int) =~= v@);
    }
    r
}

fn check_sorted_tags(v: &Vec<(String, String)>) -> (r: bool)
    ensures
        r == keys_sorted(v@),
{
    let mut i: usize = 0;
    loop
        invariant
            i <= v@.len(),
            forall|a: int, b: int| 0 <= a < b < v@.len() && b <= i ==> crate::strutil::lex_lt(
                (#[trigger] v@[a].0@),
                (#[trigger] v@[b].0@),
            ),
        decreases v@.len() - i,
    {
        let n = v.len();
        if i >= n || i == n - 1 {
            proof {
                if v@.len() >= 2 {
                    assert forall|a: int, b: int| 0 <= a < b < v@.len() implies crate::strutil::lex_lt(
                        (#[trigger] v@[a].0@),
                        (#[trigger] v@[b].0@),
                    ) by {
                        assert(b <= i);
                    }
                }
            }
            return true;
        }
        let ok = crate::strutil::str_lt(v[i].0.as_str(), v[i + 1].0.as_str());
        if !ok {
            proof {
                if keys_sorted(v@) {
                    assert(crate::strutil::lex_lt(v@[i as int].0@, v@[i as int + 1].0@));
                }
            }
            return false;
        }
        proof {
            assert forall|a: int, b: int|
                0 <= a < b < v@.len() && b <= i + 1 implies crate::strutil::lex_lt(
                (#[trigger] v@[a].0@),
                (#[trigger] v@[b].0@),
            ) by {
                if b == i + 1 && a < i {
                    crate::strutil::lemma_lex_lt_transitive(v@[a].0@, v@[i as int].0@, v@[b].0@);
                }
            }
        }
        i = i + 1;
    }
}

fn check_sorted_metrics(v: &Vec<(String, PayloadValue)>) -> (r: bool)
    ensures
        r == keys_sorted(v@),
{
    let mut i: usize = 0;
    loop
        invariant
            i <= v@.len(),
            forall|a: int, b: int| 0 <= a < b < v@.len() && b <= i ==> crate::strutil::lex_lt(
                (#[trigger] v@[a].0@),
                (#[trigger] v@[b].0@),
            ),
        decreases v@.len() - i,
    {
        let n = v.len();
        if i >= n || i == n - 1 {
            proof {
                if v@.len() >= 2 {
                    assert forall|a: int, b: int| 0 <= a < b < v@.len() implies crate::strutil::lex_lt(
                        (#[trigger] v@[a].0@),
                        (#[trigger] v@[b].0@),
                    ) by {
                        assert(b <= i);
                    }
                }
            }
            return true;
        }
        let ok = crate::strutil::str_lt(v[i].0.as_str(), v[i + 1].0.as_str());
        if !ok {
            proof {
                if keys_sorted(v@) {
                    assert(crate::strutil::lex_lt(v@[i as int].0@, v@[i as int + 1].0@));
                }
            }
            return false;
        }
        proof {
            assert forall|a: int, b: int|
                0 <= a < b < v@.len() && b <= i + 1 implies crate::strutil::lex_lt(
                (#[trigger] v@[a].0@),
                (#[trigger] v@[b].0@),
            ) by {
                if b == i + 1 && a < i {
                    crate::strutil::lemma_lex_lt_transitive(v@[a].0@, v@[i as int].0@, v@[b].0@);
                }
            }
        }
        i = i + 1;
    }
}

fn format_pairs_tags(v: &Vec<(String, String)>) -> (r: String)
    ensures
        r@ == spec_join_tags(v@),
{
    let mut r: String = String::new();
    let mut i: usize = 0;
    proof {
        assert(v@.take(0) =~= Seq::<(String, String)>::empty());
    }
    while i < v.len()
        invariant
            i <= v@.len(),
            r@ == spec_join_tags(v@.take(i as int)),
        decreases v@.len() - i,
    {
        if i > 0 {
            r.append(" ");
        }
        r.append(v[i].0.as_str());
        r.append("=");
        r.append(v[i].1.as_str());
        proof {
            reveal_strlit(" ");
            reveal_strlit("=");
            assert(" "@ =~= seq![' ']);
            assert("="@ =~= seq!['=']);
            let t = v@.take(i as int + 1);
            assert(t.drop_last() =~= v@.take(i as int));
            assert(t.last() == v@[i as int]);
            assert(r@ =~= spec_join_tags(t));
        }
        i = i + 1;
    }
    proof {
        assert(v@.take(v@.len() as int) =~= v@);
    }
    r
}

fn format_pairs_metrics(v: &Vec<(String, PayloadValue)>) -> (r: String)
    ensures
        r@ == spec_join_metrics(v@),
{
    let mut r: String = String::new();
    let mut i: usize = 0;
    proof {
        assert(v@.take(0) =~= Seq::<(String, PayloadValue)>::empty());
    }
    while i < v.len()
        invariant
            i <= v@.len(),
            r@ == spec_join_metrics(v@.take(i as int)),
        decreases v@.len() - i,
    {
        if i > 0 {
            r.append(" ");
        }
        r.append(v[i].0.as_str());
        r.append("=");
        let rendered = v[i].1.render();
        r.append(rendered.as_str());
        proof {
            reveal_strlit(" ");
            reveal_strlit("=");
            assert(" "@ =~= seq![' ']);
            assert("="@ =~= seq!['=']);
            let t = v@.take(i as int + 1);
            assert(t.drop_last() =~= v@.take(i as int));
            assert(t.last() == v@[i as int]);
            assert(r@ =~= spec_join_metrics(t));
        }
        i = i + 1;
    }
    proof {
        assert(v@.take(v@.len() as int) =~= v@);
    }
    r
}

} // verus!
