use vstd::prelude::*;
use vstd::std_specs::cmp::PartialEqSpecImpl;

verus! {

/// An HTTP request method: one of the nine standard methods, or an extension
/// method held by its name.
///
/// The view of a method is its name as it stands in a request line. Two
/// methods are equal when their names are.
#[derive(Debug)]
pub enum Method {
    Get,
    Head,
    Post,
    Put,
    Delete,
    Connect,
    Options,
    Trace,
    Patch,
    Extension(String),
}

/// Why a text was not read as a method.
#[derive(Clone, Copy, Debug, PartialEq, Eq, Structural)]
pub enum ParseError {
    /// The text is not the name of a method that `parse` reads.
    UnknownMethod,
}

/// Whether `name` is one of the four names that `Method::parse` reads.
pub open spec fn is_parsed_name(name: Seq<char>) -> bool {
    name == "GET"@ || name == "POST"@ || name == "PUT"@ || name == "DELETE"@
}

/// Whether `name` is the name of one of the nine standard methods.
pub open spec fn is_standard_name(name: Seq<char>) -> bool {
    ||| name == "GET"@
    ||| name == "HEAD"@
    ||| name == "POST"@
    ||| name == "PUT"@
    ||| name == "DELETE"@
    ||| name == "CONNECT"@
    ||| name == "OPTIONS"@
    ||| name == "TRACE"@
    ||| name == "PATCH"@
}

/// Whether two texts hold the same characters.
pub fn same_text(a: &str, b: &str) -> (r: bool)
    ensures
        r == (a@ == b@),
{
    let x = a.to_owned();
    let y = b.to_owned();
    x == y
}

impl View for Method {
    type V = Seq<char>;

    open spec fn view(&self) -> Seq<char> {
        match self {
            Method::Get => "GET"@,
            Method::Head => "HEAD"@,
            Method::Post => "POST"@,
            Method::Put => "PUT"@,
            Method::Delete => "DELETE"@,
            Method::Connect => "CONNECT"@,
            Method::Options => "OPTIONS"@,
            Method::Trace => "TRACE"@,
            Method::Patch => "PATCH"@,
            Method::Extension(name) => name@,
        }
    }
}

impl Method {
    /// The method's name.
    pub fn as_str(&self) -> (name: &str)
        ensures
            name@ == self@,
    {
        match self {
            Method::Get => "GET",
            Method::Head => "HEAD",
            Method::Post => "POST",
            Method::Put => "PUT",
            Method::Delete => "DELETE",
            Method::Connect => "CONNECT",
            Method::Options => "OPTIONS",
            Method::Trace => "TRACE",
            Method::Patch => "PATCH",
            Method::Extension(name) => name.as_str(),
        }
    }

    /// Reads the name of a method that a request line may begin with: `GET`,
    /// `POST`, `PUT` or `DELETE`. Names are case-sensitive; any other text is
    /// refused.
    pub fn parse(method: &str) -> (r: Result<Method, ParseError>)
        ensures
            is_parsed_name(method@) ==> (r matches Ok(m) && m@ == method@ && !(m is Extension)),
            !is_parsed_name(method@) ==> r == Err::<Method, ParseError>(ParseError::UnknownMethod),
    {
        if same_text(method, "GET") {
            Ok(Method::Get)
        } else if same_text(method, "POST") {
            Ok(Method::Post)
        } else if same_text(method, "PUT") {
            Ok(Method::Put)
        } else if same_text(method, "DELETE") {
            Ok(Method::Delete)
        } else {
            Err(ParseError::UnknownMethod)
        }
    }

    /// The method with the given name: the standard method of that name if
    /// there is one, an extension method otherwise.
    pub fn from_name(name: &str) -> (m: Method)
        ensures
            m@ == name@,
            is_standard_name(name@) <==> !(m is Extension),
    {
        if same_text(name, "GET") {
            Method::Get
        } else if same_text(name, "HEAD") {
            Method::Head
        } else if same_text(name, "POST") {
            Method::Post
        } else if same_text(name, "PUT") {
            Method::Put
        } else if same_text(name, "DELETE") {
            Method::Delete
        } else if same_text(name, "CONNECT") {
            Method::Connect
        } else if same_text(name, "OPTIONS") {
            Method::Options
        } else if same_text(name, "TRACE") {
            Method::Trace
        } else if same_text(name, "PATCH") {
            Method::Patch
        } else {
            Method::Extension(name.to_owned())
        }
    }
}

impl Clone for Method {
    fn clone(&self) -> (m: Method)
        ensures
            m == *self,
    {
        match self {
            Method::Get => Method::Get,
            Method::Head => Method::Head,
            Method::Post => Method::Post,
            Method::Put => Method::Put,
            Method::Delete => Method::Delete,
            Method::Connect => Method::Connect,
            Method::Options => Method::Options,
            Method::Trace => Method::Trace,
            Method::Patch => Method::Patch,
            Method::Extension(name) => Method::Extension(name.clone()),
        }
    }
}

impl PartialEq for Method {
    fn eq(&self, other: &Method) -> (r: bool) {
        same_text(self.as_str(), other.as_str())
    }
}

impl Eq for Method {
}

impl PartialEqSpecImpl for Method {
    open spec fn obeys_eq_spec() -> bool {
        true
    }

    open spec fn eq_spec(&self, other: &Method) -> bool {
        self@ == other@
    }
}

impl ParseError {
    /// What went wrong, in words.
    pub fn message(&self) -> (text: String)
        ensures
            text@ == "failed to parse method"@,
    {
        "failed to parse method".to_owned()
    }
}

} // verus!
