//! The failures of parsing and rendering a template.
use vstd::prelude::*;
use vstd::string::*;

verus! {

/// Why a template could not be parsed or rendered.
#[derive(Debug, PartialEq, Eq)]
pub enum TemplateError {
    /// A malformed directive in the template `name`; `snippet` is the text
    /// at the offending place.
    Syntax { name: String, snippet: String },
    /// An include of a template that is not registered.
    MissingInclude { refid: String },
    /// Includes nested deeper than there are registered templates, as
    /// happens where templates include each other in a circle.
    IncludeDepth { refid: String },
    /// An iteration over something that is no list.
    NotIterable { collection: String },
    /// A variable that names a list or a mapping, which is no parameter.
    NotScalar { name: String },
}

pub enum TemplateErrorView {
    Syntax { name: Seq<char>, snippet: Seq<char> },
    MissingInclude { refid: Seq<char> },
    IncludeDepth { refid: Seq<char> },
    NotIterable { collection: Seq<char> },
    NotScalar { name: Seq<char> },
}

impl View for TemplateError {
    type V = TemplateErrorView;

    open spec fn view(&self) -> TemplateErrorView {
        match self {
            TemplateError::Syntax { name, snippet } => TemplateErrorView::Syntax {
                name: name@,
                snippet: snippet@,
            },
            TemplateError::MissingInclude { refid } => TemplateErrorView::MissingInclude {
                refid: refid@,
            },
            TemplateError::IncludeDepth { refid } => TemplateErrorView::IncludeDepth {
                refid: refid@,
            },
            TemplateError::NotIterable { collection } => TemplateErrorView::NotIterable {
                collection: collection@,
            },
            TemplateError::NotScalar { name } => TemplateErrorView::NotScalar { name: name@ },
        }
    }
}

impl Clone for TemplateError {
    fn clone(&self) -> (r: Self)
        ensures
            r@ == self@,
    {
        match self {
            TemplateError::Syntax { name, snippet } => TemplateError::Syntax {
                name: name.clone(),
                snippet: snippet.clone(),
            },
            TemplateError::MissingInclude { refid } => TemplateError::MissingInclude {
                refid: refid.clone(),
            },
            TemplateError::IncludeDepth { refid } => TemplateError::IncludeDepth {
                refid: refid.clone(),
            },
            TemplateError::NotIterable { collection } => TemplateError::NotIterable {
                collection: collection.clone(),
            },
            TemplateError::NotScalar { name } => TemplateError::NotScalar { name: name.clone() },
        }
    }
}

/// The words for a failure.
pub open spec fn message_spec(e: TemplateErrorView) -> Seq<char> {
    match e {
        TemplateErrorView::Syntax { name, snippet } => "template syntax error in `"@ + name
            + "` near `"@ + snippet + "`"@,
        TemplateErrorView::MissingInclude { refid } => "included template `"@ + refid
            + "` is not registered"@,
        TemplateErrorView::IncludeDepth { refid } => "includes nest too deep at `"@ + refid + "`"@,
        TemplateErrorView::NotIterable { collection } => "`"@ + collection + "` is not a list"@,
        TemplateErrorView::NotScalar { name } => "`"@ + name + "` is not a scalar"@,
    }
}

impl TemplateError {
    /// The failure in words; it names the template, the snippet or the
    /// variable concerned.
    pub fn to_string(&self) -> (s: String)
        ensures
            s@ == message_spec(self@),
    {
        match self {
            TemplateError::Syntax { name, snippet } => {
                let mut s = String::from_str("template syntax error in `");
                s.append(name.as_str());
                s.append("` near `");
                s.append(snippet.as_str());
                s.append("`");
                s
            },
            TemplateError::MissingInclude { refid } => {
                let mut s = String::from_str("included template `");
                s.append(refid.as_str());
                s.append("` is not registered");
                s
            },
            TemplateError::IncludeDepth { refid } => {
                let mut s = String::from_str("includes nest too deep at `");
                s.append(refid.as_str());
                s.append("`");
                s
            },
            TemplateError::NotIterable { collection } => {
                let mut s = String::from_str("`");
                s.append(collection.as_str());
                s.append("` is not a list");
                s
            },
            TemplateError::NotScalar { name } => {
                let mut s = String::from_str("`");
                s.append(name.as_str());
                s.append("` is not a scalar");
                s
            },
        }
    }
}

} // verus!
