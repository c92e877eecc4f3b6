//! What the two InfluxDB sinks share: the line-protocol rendering of a
//! sample, and reading the error field out of an API error response.
use vstd::prelude::*;
use vstd::string::StrSliceExecFns;
use vstd::string::StringExecFns;

use crate::message::Message;
use crate::strutil::spec_int_dec;
use crate::strutil::i128_to_dec;
use crate::value::spec_render;
use crate::value::PayloadValue;

verus! {

/// The string field under `key` at the top of a JSON document, where the
/// document parses and carries one; what serde_json reads out of a body.
pub uninterp spec fn json_str_field(body: Seq<char>, key: Seq<char>) -> Option<Seq<char>>;

/// Relies on serde_json::from_str, Value::get and Value::as_str: what is
/// read is a function of the document and the key alone.
#[verifier::external_body]
pub(crate) fn json_string_field(body: &str, key: &str) -> (r: Option<String>)
    ensures
        r matches Some(s) ==> json_str_field(body@, key@) == Some(s@),
        r is None ==> json_str_field(body@, key@) is None,
{
    serde_json::from_str::<serde_json::Value>(body).ok().and_then(
        |v| v.get(key).and_then(|f| f.as_str().map(|s| s.to_string())),
    )
}

/// Each tag contributes `,name=value` after the measurement name.
pub open spec fn spec_comma_tags(s: Seq<(String, String)>) -> Seq<char>
    decreases s.len(),
{
    if s.len() == 0 {
        Seq::empty()
    } else {
        spec_comma_tags(s.drop_last()) + seq![','] + s.last().0@ + seq!['='] + s.last().1@
    }
}

/// The metrics as `name=value` pairs joined by commas, values rendered.
pub open spec fn spec_comma_metrics(s: Seq<(String, PayloadValue)>) -> Seq<char>
    decreases s.len(),
{
    if s.len() == 0 {
        Seq::empty()
    } else if s.len() == 1 {
        s[0].0@ + seq!['='] + spec_render(s[0].1)
    } else {
        spec_comma_metrics(s.drop_last()) + seq![','] + s.last().0@ + seq!['='] + spec_render(
            s.last().1,
        )
    }
}

/// The line-protocol form of a sample:
/// `<source><,tags> <metrics> <timestamp-ms>`.
pub open spec fn spec_line_protocol(m: Message) -> Seq<char> {
    m.source_view() + spec_comma_tags(m.tags_seq()) + seq![' '] + spec_comma_metrics(
        m.metrics_seq(),
    ) + seq![' '] + spec_int_dec(m.timestamp_spec() as int)
}

/// Renders one sample in the InfluxDB line protocol.
pub fn message_to_line_protocol(msg: &Message) -> (r: String)
    requires
        msg.metrics_seq().len() > 0,
    ensures
        r@ == spec_line_protocol(*msg),
{
    let mut r: String = msg.source().clone();
    let tags = comma_tags(msg.tags());
    r.append(tags.as_str());
    r.append(" ");
    let metrics = comma_metrics(msg.metrics());
    r.append(metrics.as_str());
    r.append(" ");
    let ts = i128_to_dec(msg.timestamp() as i128);
    r.append(ts.as_str());
    proof {
        reveal_strlit(" ");
        assert(" "@ =~= seq![' ']);
        assert(r@ =~= spec_line_protocol(*msg));
    }
    r
}

fn comma_tags(v: &Vec<(String, String)>) -> (r: String)
    ensures
        r@ == spec_comma_tags(v@),
{
    let mut r = String::new();
    let mut i: usize = 0;
    proof {
        assert(v@.take(0) =~= Seq::<(String, String)>::empty());
    }
    while i < v.len()
        invariant
            i <= v@.len(),
            r@ == spec_comma_tags(v@.take(i as int)),
        decreases v@.len() - i,
    {
        r.append(",");
        r.append(v[i].0.as_str());
        r.append("=");
        r.append(v[i].1.as_str());
        proof {
            reveal_strlit(",");
            reveal_strlit("=");
            assert(","@ =~= seq![',']);
            assert("="@ =~= seq!['=']);
            let t = v@.take(i as int + 1);
            assert(t.drop_last() =~= v@.take(i as int));
            assert(t.last() == v@[i as int]);
            assert(r@ =~= spec_comma_tags(t));
        }
        i = i + 1;
    }
    proof {
        assert(v@.take(v@.len() as int) =~= v@);
    }
    r
}

fn comma_metrics(v: &Vec<(String, PayloadValue)>) -> (r: String)
    ensures
        r@ == spec_comma_metrics(v@),
{
    let mut r = String::new();
    let mut i: usize = 0;
    proof {
        assert(v@.take(0) =~= Seq::<(String, PayloadValue)>::empty());
    }
    while i < v.len()
        invariant
            i <= v@.len(),
            r@ == spec_comma_metrics(v@.take(i as int)),
        decreases v@.len() - i,
    {
        if i > 0 {
            r.append(",");
        }
        r.append(v[i].0.as_str());
        r.append("=");
        let rendered = v[i].1.render();
        r.append(rendered.as_str());
        proof {
            reveal_strlit(",");
            reveal_strlit("=");
            assert(","@ =~= seq![',']);
            assert("="@ =~= seq!['=']);
            let t = v@.take(i as int + 1);
            assert(t.drop_last() =~= v@.take(i as int));
            assert(t.last() == v@[i as int]);
            assert(r@ =~= spec_comma_metrics(t));
        }
        i = i + 1;
    }
    proof {
        assert(v@.take(v@.len() as int) =~= v@);
    }
    r
}

} // verus!
