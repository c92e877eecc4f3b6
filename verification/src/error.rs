//! The pipeline's error value: a message with optional source, cause and
//! context annotations, rendered as `message (source="…" context="…"
//! cause="…")`.
use vstd::prelude::*;
use vstd::string::StringExecFns;

verus! {

/// An error carried between pipeline stages.
#[derive(Debug)]
pub struct Error {
    msg: String,
    source: Option<String>,
    cause: Option<String>,
    context: Option<String>,
}

/// One quoted annotation, `label="text"`.
pub open spec fn spec_annotation(label: Seq<char>, text: Seq<char>) -> Seq<char> {
    label + "=\""@ + text + "\""@
}

/// The space-joined concatenation of a list of rendered parts.
pub open spec fn spec_join_parts(parts: Seq<Seq<char>>) -> Seq<char>
    decreases parts.len(),
{
    if parts.len() == 0 {
        Seq::empty()
    } else if parts.len() == 1 {
        parts[0]
    } else {
        spec_join_parts(parts.drop_last()) + seq![' '] + parts.last()
    }
}

impl Error {
    /// The error message.
    pub closed spec fn msg_view(&self) -> Seq<char> {
        self.msg@
    }

    /// The component that reported the error, if set.
    pub closed spec fn source_opt(&self) -> Option<Seq<char>> {
        match self.source {
            Some(ref s) => Some(s@),
            None => None,
        }
    }

    /// The underlying cause's rendering, if set.
    pub closed spec fn cause_opt(&self) -> Option<Seq<char>> {
        match self.cause {
            Some(ref s) => Some(s@),
            None => None,
        }
    }

    /// Free-form context, if set.
    pub closed spec fn context_opt(&self) -> Option<Seq<char>> {
        match self.context {
            Some(ref s) => Some(s@),
            None => None,
        }
    }

    /// The annotations that rendering prints, in order: source, context,
    /// cause.
    pub open spec fn spec_parts(&self) -> Seq<Seq<char>> {
        let p0 = Seq::<Seq<char>>::empty();
        let p1 = if self.source_opt() is Some {
            p0.push(spec_annotation("source"@, self.source_opt()->Some_0))
        } else {
            p0
        };
        let p2 = if self.context_opt() is Some {
            p1.push(spec_annotation("context"@, self.context_opt()->Some_0))
        } else {
            p1
        };
        if self.cause_opt() is Some {
            p2.push(spec_annotation("cause"@, self.cause_opt()->Some_0))
        } else {
            p2
        }
    }

    /// Creates an error carrying only a message.
    pub fn new(msg: &str) -> (r: Error)
        ensures
            r.msg_view() == msg@,
            r.source_opt() is None,
            r.cause_opt() is None,
            r.context_opt() is None,
    {
        Error { msg: msg.to_owned(), source: None, cause: None, context: None }
    }

    /// The component that reported the error, if set.
    pub fn source(&self) -> (r: &Option<String>)
        ensures
            r is Some <==> self.source_opt() is Some,
            r matches Some(s) ==> self.source_opt() == Some(s@),
    {
        &self.source
    }

    /// Annotates the error with the reporting component.
    pub fn set_source(self, source: &str) -> (r: Self)
        ensures
            r.msg_view() == self.msg_view(),
            r.source_opt() == Some(source@),
            r.cause_opt() == self.cause_opt(),
            r.context_opt() == self.context_opt(),
    {
        Error { source: Some(source.to_owned()), ..self }
    }

    /// The underlying cause's rendering, if set.
    pub fn cause(&self) -> (r: &Option<String>)
        ensures
            r is Some <==> self.cause_opt() is Some,
            r matches Some(s) ==> self.cause_opt() == Some(s@),
    {
        &self.cause
    }

    /// Annotates the error with its underlying cause, already rendered.
    pub fn set_cause(self, cause: &str) -> (r: Self)
        ensures
            r.msg_view() == self.msg_view(),
            r.cause_opt() == Some(cause@),
            r.source_opt() == self.source_opt(),
            r.context_opt() == self.context_opt(),
    {
        Error { cause: Some(cause.to_owned()), ..self }
    }

    /// Free-form context, if set.
    pub fn context(&self) -> (r: &Option<String>)
        ensures
            r is Some <==> self.context_opt() is Some,
            r matches Some(s) ==> self.context_opt() == Some(s@),
    {
        &self.context
    }

    /// Annotates the error with free-form context.
    pub fn set_context(self, context: &str) -> (r: Self)
        ensures
            r.msg_view() == self.msg_view(),
            r.context_opt() == Some(context@),
            r.source_opt() == self.source_opt(),
            r.cause_opt() == self.cause_opt(),
    {
        Error { context: Some(context.to_owned()), ..self }
    }

    /// Renders the error as `message (annotations)`.
    pub fn render(&self) -> (r: String)
        ensures
            r@ == self.msg_view() + " ("@ + spec_join_parts(self.spec_parts()) + ")"@,
    {
        let mut info = String::new();
        let mut first: bool = true;
        let ghost mut parts = Seq::<Seq<char>>::empty();
        proof {
            assert(info@ =~= spec_join_parts(parts));
        }
        if let Some(s) = &self.source {
            info.append("source=\"");
            info.append(s.as_str());
            info.append("\"");
            first = false;
            proof {
                parts = parts.push(spec_annotation("source"@, s@));
                reveal_strlit("source=\"");
                reveal_strlit("source");
                reveal_strlit("=\"");
                reveal_strlit("\"");
                assert("source=\""@ =~= "source"@ + "=\""@);
                assert(info@ =~= spec_join_parts(parts));
            }
        }
        if let Some(c) = &self.context {
            if !first {
                info.append(" ");
            }
            info.append("context=\"");
            info.append(c.as_str());
            info.append("\"");
            first = false;
            proof {
                let prev = parts;
                parts = parts.push(spec_annotation("context"@, c@));
                reveal_strlit("context=\"");
                reveal_strlit("context");
                reveal_strlit("=\"");
                reveal_strlit("\"");
                reveal_strlit(" ");
                assert("context=\""@ =~= "context"@ + "=\""@);
                assert(" "@ =~= seq![' ']);
                assert(parts.drop_last() =~= prev);
                assert(info@ =~= spec_join_parts(parts));
            }
        }
        if let Some(c) = &self.cause {
            if !first {
                info.append(" ");
            }
            info.append("cause=\"");
            info.append(c.as_str());
            info.append("\"");
            proof {
                let prev = parts;
                parts = parts.push(spec_annotation("cause"@, c@));
                reveal_strlit("cause=\"");
                reveal_strlit("cause");
                reveal_strlit("=\"");
                reveal_strlit("\"");
                reveal_strlit(" ");
                assert("cause=\""@ =~= "cause"@ + "=\""@);
                assert(" "@ =~= seq![' ']);
                assert(parts.drop_last() =~= prev);
                assert(info@ =~= spec_join_parts(parts));
            }
        }
        proof {
            assert(parts =~= self.spec_parts());
        }
        let mut r = self.msg.clone();
        r.append(" (");
        r.append(info.as_str());
        r.append(")");
        proof {
            reveal_strlit(" (");
            reveal_strlit(")");
            assert(r@ =~= self.msg_view() + " ("@ + spec_join_parts(self.spec_parts()) + ")"@);
        }
        r
    }
}

impl Clone for Error {
    fn clone(&self) -> (r: Self)
        ensures
            r.msg_view() == self.msg_view(),
            r.source_opt() == self.source_opt(),
            r.cause_opt() == self.cause_opt(),
            r.context_opt() == self.context_opt(),
    {
        Error {
            msg: self.msg.clone(),
            source: clone_opt_string(&self.source),
            cause: clone_opt_string(&self.cause),
            context: clone_opt_string(&self.context),
        }
    }
}

fn clone_opt_string(o: &Option<String>) -> (r: Option<String>)
    ensures
        r == *o,
{
    match o {
        Some(s) => Some(s.clone()),
        None => None,
    }
}

/// Convenience annotations on a whole `Result`, applied to its error, if any.
pub trait ResultError: Sized {
    /// Annotates the error, if any, with the reporting component.
    fn set_source(self, source: &str) -> Self;

    /// Annotates the error, if any, with its underlying cause, rendered.
    fn set_cause(self, cause: &str) -> Self;

    /// Annotates the error, if any, with free-form context.
    fn set_context(self, context: &str) -> Self;
}

impl<T> ResultError for Result<T, Error> {
    fn set_source(self, source: &str) -> Self {
        match self {
            Ok(v) => Ok(v),
            Err(e) => Err(e.set_source(source)),
        }
    }

    fn set_cause(self, cause: &str) -> Self {
        match self {
            Ok(v) => Ok(v),
            Err(e) => Err(e.set_cause(cause)),
        }
    }

    fn set_context(self, context: &str) -> Self {
        match self {
            Ok(v) => Ok(v),
            Err(e) => Err(e.set_context(context)),
        }
    }
}

} // verus!
