//! Log sink: emits each sample as one log line, leaving the `hostname`
//! tag out (the log line already carries the host's identity).
use vstd::prelude::*;
use vstd::string::StrSliceExecFns;
use vstd::string::StringExecFns;

use crate::error::Error;
use crate::exporters::log_line;
use crate::exporters::stdout::quoted_metrics;
use crate::exporters::stdout::spec_quoted_metrics;
use crate::exporters::Exporter;
use crate::message::rfc3339_of;
use crate::message::Message;
use crate::strutil::str_eq;

verus! {

/// Each tag but `hostname` contributes ` name="value"`.
pub open spec fn spec_quoted_tags_sans_hostname(s: Seq<(String, String)>) -> Seq<char>
    decreases s.len(),
{
    if s.len() == 0 {
        Seq::empty()
    } else if s.last().0@ == "hostname"@ {
        spec_quoted_tags_sans_hostname(s.drop_last())
    } else {
        spec_quoted_tags_sans_hostname(s.drop_last()) + seq![' '] + s.last().0@ + "=\""@
            + s.last().1@ + seq!['"']
    }
}

/// The log sink's line for a sample:
/// `timestamp="<rfc3339>" source="<source>"<tags-sans-hostname><metrics>`.
pub open spec fn spec_logger_line(m: Message) -> Seq<char> {
    "timestamp=\""@ + rfc3339_of(m.timestamp_spec()) + "\" source=\""@ + m.source_view()
        + seq!['"'] + spec_quoted_tags_sans_hostname(m.tags_seq()) + spec_quoted_metrics(
        m.metrics_seq(),
    )
}

/// The log sink.
pub struct Logger {}

impl Logger {
    /// The sink; it needs no configuration.
    pub fn new() -> (r: Logger) {
        Logger {  }
    }

    /// Renders one sample as the sink logs it.
    pub fn format_message(msg: &Message) -> (r: String)
        requires
            msg.metrics_seq().len() > 0,
        ensures
            r@ == spec_logger_line(*msg),
    {
        let mut r: String = "timestamp=\"".to_owned();
        r.append(msg.timestamp_rfc3339().as_str());
        r.append("\" source=\"");
        r.append(msg.source().as_str());
        r.append("\"");
        let tags = quoted_tags_sans_hostname(msg.tags());
        r.append(tags.as_str());
        let metrics = quoted_metrics(msg.metrics());
        r.append(metrics.as_str());
        proof {
            reveal_strlit("\"");
            assert("\""@ =~= seq!['"']);
            assert(r@ =~= spec_logger_line(*msg));
        }
        r
    }
}

impl Exporter for Logger {
    /// This sink transmits on its own and cannot fail.
    fn export(&self, message: &Message) -> (r: Result<(), Error>)
        ensures
            r is Ok,
    {
        let line = Logger::format_message(message);
        log_line(&line);
        Ok(())
    }
}

fn quoted_tags_sans_hostname(v: &Vec<(String, String)>) -> (r: String)
    ensures
        r@ == spec_quoted_tags_sans_hostname(v@),
{
    let mut r = String::new();
    let mut i: usize = 0;
    proof {
        assert(v@.take(0) =~= Seq::<(String, String)>::empty());
    }
    while i < v.len()
        invariant
            i <= v@.len(),
            r@ == spec_quoted_tags_sans_hostname(v@.take(i as int)),
        decreases v@.len() - i,
    {
        let skip = str_eq(v[i].0.as_str(), "hostname");
        if !skip {
            r.append(" ");
            r.append(v[i].0.as_str());
            r.append("=\"");
            r.append(v[i].1.as_str());
            r.append("\"");
        }
        proof {
            reveal_strlit(" ");
            reveal_strlit("\"");
            assert(" "@ =~= seq![' ']);
            assert("\""@ =~= seq!['"']);
            let t = v@.take(i as int + 1);
            assert(t.drop_last() =~= v@.take(i as int));
            assert(t.last() == v@[i as int]);
            assert(r@ =~= spec_quoted_tags_sans_hostname(t));
        }
        i = i + 1;
    }
    proof {
        assert(v@.take(v@.len() as int) =~= v@);
    }
    r
}

} // verus!
