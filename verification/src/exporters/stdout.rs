//! Stdout sink: prints each sample as one line on standard output.
use vstd::prelude::*;
use vstd::string::StrSliceExecFns;
use vstd::string::StringExecFns;

use crate::error::Error;
use crate::exporters::print_line;
use crate::exporters::Exporter;
use crate::message::rfc3339_of;
use crate::message::Message;
use crate::value::spec_render;
use crate::value::PayloadValue;

verus! {

/// Each tag contributes ` name="value"`.
pub open spec fn spec_quoted_tags(s: Seq<(String, String)>) -> Seq<char>
    decreases s.len(),
{
    if s.len() == 0 {
        Seq::empty()
    } else {
        spec_quoted_tags(s.drop_last()) + seq![' '] + s.last().0@ + "=\""@ + s.last().1@
            + seq!['"']
    }
}

/// Each metric contributes ` name="value"`, the value rendered.
pub open spec fn spec_quoted_metrics(s: Seq<(String, PayloadValue)>) -> Seq<char>
    decreases s.len(),
{
    if s.len() == 0 {
        Seq::empty()
    } else {
        spec_quoted_metrics(s.drop_last()) + seq![' '] + s.last().0@ + "=\""@ + spec_render(
            s.last().1,
        ) + seq!['"']
    }
}

/// The stdout sink's line for a sample:
/// `[<rfc3339>] [source="<source>"<tags>]<metrics>`.
pub open spec fn spec_stdout_line(m: Message) -> Seq<char> {
    seq!['['] + rfc3339_of(m.timestamp_spec()) + "] [source=\""@ + m.source_view() + seq!['"']
        + spec_quoted_tags(m.tags_seq()) + seq![']'] + spec_quoted_metrics(m.metrics_seq())
}

/// The stdout sink.
pub struct Stdout {}

impl Stdout {
    /// The sink; it needs no configuration.
    pub fn new() -> (r: Stdout) {
        Stdout {  }
    }

    /// Renders one sample as the sink prints it.
    pub fn format_message(msg: &Message) -> (r: String)
        requires
            msg.metrics_seq().len() > 0,
        ensures
            r@ == spec_stdout_line(*msg),
    {
        let mut r: String = "[".to_owned();
        r.append(msg.timestamp_rfc3339().as_str());
        r.append("] [source=\"");
        r.append(msg.source().as_str());
        r.append("\"");
        let tags = quoted_tags(msg.tags());
        r.append(tags.as_str());
        r.append("]");
        let metrics = quoted_metrics(msg.metrics());
        r.append(metrics.as_str());
        proof {
            reveal_strlit("[");
            reveal_strlit("]");
            reveal_strlit("\"");
            assert("["@ =~= seq!['[']);
            assert("]"@ =~= seq![']']);
            assert("\""@ =~= seq!['"']);
            assert(r@ =~= spec_stdout_line(*msg));
        }
        r
    }
}

impl Exporter for Stdout {
    /// This sink transmits on its own and cannot fail.
    fn export(&self, message: &Message) -> (r: Result<(), Error>)
        ensures
            r is Ok,
    {
        let line = Stdout::format_message(message);
        print_line(&line);
        Ok(())
    }
}

pub(crate) fn quoted_tags(v: &Vec<(String, String)>) -> (r: String)
    ensures
        r@ == spec_quoted_tags(v@),
{
    let mut r = String::new();
    let mut i: usize = 0;
    proof {
        assert(v@.take(0) =~= Seq::<(String, String)>::empty());
    }
    while i < v.len()
        invariant
            i <= v@.len(),
            r@ == spec_quoted_tags(v@.take(i as int)),
        decreases v@.len() - i,
    {
        r.append(" ");
        r.append(v[i].0.as_str());
        r.append("=\"");
        r.append(v[i].1.as_str());
        r.append("\"");
        proof {
            reveal_strlit(" ");
            reveal_strlit("=\"");
            reveal_strlit("\"");
            assert(" "@ =~= seq![' ']);
            assert("\""@ =~= seq!['"']);
            let t = v@.take(i as int + 1);
            assert(t.drop_last() =~= v@.take(i as int));
            assert(t.last() == v@[i as int]);
            assert(r@ =~= spec_quoted_tags(t));
        }
        i = i + 1;
    }
    proof {
        assert(v@.take(v@.len() as int) =~= v@);
    }
    r
}

pub(crate) fn quoted_metrics(v: &Vec<(String, PayloadValue)>) -> (r: String)
    ensures
        r@ == spec_quoted_metrics(v@),
{
    let mut r = String::new();
    let mut i: usize = 0;
    proof {
        assert(v@.take(0) =~= Seq::<(String, PayloadValue)>::empty());
    }
    while i < v.len()
        invariant
            i <= v@.len(),
            r@ == spec_quoted_metrics(v@.take(i as int)),
        decreases v@.len() - i,
    {
        r.append(" ");
        r.append(v[i].0.as_str());
        r.append("=\"");
        let rendered = v[i].1.render();
        r.append(rendered.as_str());
        r.append("\"");
        proof {
            reveal_strlit(" ");
            reveal_strlit("=\"");
            reveal_strlit("\"");
            assert(" "@ =~= seq![' ']);
            assert("\""@ =~= seq!['"']);
            let t = v@.take(i as int + 1);
            assert(t.drop_last() =~= v@.take(i as int));
            assert(t.last() == v@[i as int]);
            assert(r@ =~= spec_quoted_metrics(t));
        }
        i = i + 1;
    }
    proof {
        assert(v@.take(v@.len() as int) =~= v@);
    }
    r
}

} // verus!
