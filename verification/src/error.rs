//! The layered error model.
//!
//! A [`ConfigError`] carries a human-readable message, an optional category
//! tag (`kind`), optional contextual detail (`context`, typically a file path
//! or field name), and an optional chained underlying cause (`source`).
//! A value is immutable once constructed through the builder-style chain:
//! intermediate callers enrich a fresh copy rather than mutate in place.

use vstd::prelude::*;
use vstd::string::*;

verus! {

/// Error type representing issues encountered during configuration parsing
/// or validation.
#[derive(Debug)]
pub struct ConfigError {
    /// A human-readable description of the error.
    message: String,
    /// Optional contextual detail (e.g., field name, file path, or section).
    context: Option<String>,
    /// Optional underlying error that triggered this one.
    source: Option<Box<ConfigError>>,
    /// Optional classification of the error (e.g., `"ParseError"`).
    kind: Option<String>,
}

impl ConfigError {
    /// The message attached to this error.
    pub closed spec fn spec_message(&self) -> Seq<char> {
        self.message@
    }

    /// The category tag attached to this error, if any.
    pub closed spec fn spec_kind(&self) -> Option<Seq<char>> {
        match self.kind {
            Some(k) => Some(k@),
            None => None,
        }
    }

    /// The contextual detail attached to this error, if any.
    pub closed spec fn spec_context(&self) -> Option<Seq<char>> {
        match self.context {
            Some(c) => Some(c@),
            None => None,
        }
    }

    /// The chained underlying cause, if any.
    pub closed spec fn spec_source(&self) -> Option<ConfigError> {
        match self.source {
            Some(b) => Some(*b),
            None => None,
        }
    }

    /// Well-formedness: the message is non-empty, here and in every chained
    /// cause. Construction through [`ConfigError::new`] and the builders
    /// establishes and preserves this invariant.
    pub closed spec fn wf(&self) -> bool
        decreases *self,
    {
        &&& self.message@.len() > 0
        &&& match self.source {
            Some(b) => b.wf(),
            None => true,
        }
    }

    /// True exactly when this error carries the given category tag.
    pub open spec fn has_kind(&self, kind: Seq<char>) -> bool {
        self.spec_kind() == Some(kind)
    }

    /// Constructs a new `ConfigError` with the given message.
    pub fn new(message: &str) -> (r: Self)
        requires
            message@.len() > 0,
        ensures
            r.spec_message() == message@,
            r.spec_kind() is None,
            r.spec_context() is None,
            r.spec_source() is None,
            r.wf(),
    {
        ConfigError { message: message.to_owned(), context: None, source: None, kind: None }
    }

    /// Constructs a new `ConfigError` from rendered diagnostic text, falling
    /// back to the given message when the text is empty, so that the
    /// non-empty-message invariant holds whatever the text was.
    pub fn new_or(text: &str, fallback: &str) -> (r: Self)
        requires
            fallback@.len() > 0,
        ensures
            r.spec_message() == if text@.len() > 0 {
                text@
            } else {
                fallback@
            },
            r.spec_kind() is None,
            r.spec_context() is None,
            r.spec_source() is None,
            r.wf(),
    {
        if !text.is_empty() {
            ConfigError::new(text)
        } else {
            ConfigError::new(fallback)
        }
    }

    /// Attaches additional context to the error.
    ///
    /// Useful for indicating where or how the error occurred (e.g., a file
    /// path or `"field: port"`).
    pub fn with_context(self, context: &str) -> (r: Self)
        ensures
            r.spec_message() == self.spec_message(),
            r.spec_kind() == self.spec_kind(),
            r.spec_context() == Some(context@),
            r.spec_source() == self.spec_source(),
            self.wf() ==> r.wf(),
    {
        ConfigError { context: Some(context.to_owned()), ..self }
    }

    /// Specifies a category or kind for the error.
    ///
    /// Examples include `"ParseError"`, `"ValidationError"`, or `"IOError"`.
    pub fn with_kind(self, kind: &str) -> (r: Self)
        ensures
            r.spec_message() == self.spec_message(),
            r.spec_kind() == Some(kind@),
            r.spec_context() == self.spec_context(),
            r.spec_source() == self.spec_source(),
            self.wf() ==> r.wf(),
    {
        ConfigError { kind: Some(kind.to_owned()), ..self }
    }

    /// Attaches a source error, allowing for error chaining.
    ///
    /// Useful for preserving the root cause of parsing or I/O failures.
    pub fn with_source(self, source: ConfigError) -> (r: Self)
        ensures
            r.spec_message() == self.spec_message(),
            r.spec_kind() == self.spec_kind(),
            r.spec_context() == self.spec_context(),
            r.spec_source() == Some(source),
            (self.wf() && source.wf()) ==> r.wf(),
    {
        ConfigError { source: Some(Box::new(source)), ..self }
    }

    /// The message attached to this error.
    pub fn message(&self) -> (r: &str)
        ensures
            r@ == self.spec_message(),
    {
        self.message.as_str()
    }

    /// The category tag attached to this error, if any.
    pub fn kind(&self) -> (r: Option<&String>)
        ensures
            match r {
                Some(k) => self.spec_kind() == Some(k@),
                None => self.spec_kind() is None,
            },
    {
        self.kind.as_ref()
    }

    /// The contextual detail attached to this error, if any.
    pub fn context(&self) -> (r: Option<&String>)
        ensures
            match r {
                Some(c) => self.spec_context() == Some(c@),
                None => self.spec_context() is None,
            },
    {
        self.context.as_ref()
    }

    /// The chained underlying cause, if any.
    pub fn source(&self) -> (r: Option<&ConfigError>)
        ensures
            match r {
                Some(s) => self.spec_source() == Some(*s),
                None => self.spec_source() is None,
            },
    {
        match &self.source {
            Some(b) => Some(&**b),
            None => None,
        }
    }

    /// The single descriptive line this error renders as: the fixed heading,
    /// then the kind in brackets, the context after `in`, and the message.
    pub open spec fn spec_display(&self) -> Seq<char> {
        "Configuration error"@ + (match self.spec_kind() {
            Some(k) => " ["@ + k + "]"@,
            None => Seq::<char>::empty(),
        }) + (match self.spec_context() {
            Some(c) => " in "@ + c,
            None => Seq::<char>::empty(),
        }) + ": "@ + self.spec_message()
    }

    /// Renders the error as a single descriptive line combining kind,
    /// context, and message.
    pub fn describe(&self) -> (r: String)
        ensures
            r@ == self.spec_display(),
    {
        let mut out: String = "Configuration error".to_owned();
        if let Some(k) = &self.kind {
            out.append(" [");
            out.append(k.as_str());
            out.append("]");
        }
        if let Some(c) = &self.context {
            out.append(" in ");
            out.append(c.as_str());
        }
        out.append(": ");
        out.append(self.message.as_str());
        proof {
            assert(out@ =~= self.spec_display());
        }
        out
    }
}

} // verus!
