//! Controllers: what the declaration of a route says about its method and
//! its parameters.

use crate::text::same_text;
use vstd::prelude::*;
use vstd::string::StringExecFns;

verus! {

/// The methods a route can be declared for.
#[derive(Debug, Clone, Copy, PartialEq, Eq, Structural)]
pub enum HttpMethod {
    Get,
    Post,
    Put,
    Delete,
    Patch,
}

impl HttpMethod {
    /// The method that a route attribute of the given name declares, if the
    /// name is that of a route attribute.
    pub open spec fn from_attribute_spec(name: Seq<char>) -> Option<HttpMethod> {
        if name == "get"@ {
            Some(HttpMethod::Get)
        } else if name == "post"@ {
            Some(HttpMethod::Post)
        } else if name == "put"@ {
            Some(HttpMethod::Put)
        } else if name == "delete"@ {
            Some(HttpMethod::Delete)
        } else if name == "patch"@ {
            Some(HttpMethod::Patch)
        } else {
            None
        }
    }

    /// The method that a route attribute of the given name declares.
    pub fn from_attribute(name: &str) -> (method: Option<HttpMethod>)
        ensures
            method == Self::from_attribute_spec(name@),
    {
        if same_text(name, "get") {
            Some(HttpMethod::Get)
        } else if same_text(name, "post") {
            Some(HttpMethod::Post)
        } else if same_text(name, "put") {
            Some(HttpMethod::Put)
        } else if same_text(name, "delete") {
            Some(HttpMethod::Delete)
        } else if same_text(name, "patch") {
            Some(HttpMethod::Patch)
        } else {
            None
        }
    }

    /// The name of the method as a request carries it.
    pub open spec fn name_spec(self) -> Seq<char> {
        match self {
            HttpMethod::Get => "GET"@,
            HttpMethod::Post => "POST"@,
            HttpMethod::Put => "PUT"@,
            HttpMethod::Delete => "DELETE"@,
            HttpMethod::Patch => "PATCH"@,
        }
    }

    /// The name of the method as a request carries it.
    pub fn name(self) -> (name: &'static str)
        ensures
            name@ == self.name_spec(),
    {
        match self {
            HttpMethod::Get => "GET",
            HttpMethod::Post => "POST",
            HttpMethod::Put => "PUT",
            HttpMethod::Delete => "DELETE",
            HttpMethod::Patch => "PATCH",
        }
    }

    /// The method a route registers under, given the name it was recorded
    /// with: the method of that name, and `Get` for any other name.
    pub open spec fn routed_spec(name: Seq<char>) -> HttpMethod {
        if name == "POST"@ {
            HttpMethod::Post
        } else if name == "PUT"@ {
            HttpMethod::Put
        } else if name == "DELETE"@ {
            HttpMethod::Delete
        } else if name == "PATCH"@ {
            HttpMethod::Patch
        } else {
            HttpMethod::Get
        }
    }

    /// The method a route registers under, given the name it was recorded
    /// with.
    pub fn routed(name: &str) -> (method: HttpMethod)
        ensures
            method == Self::routed_spec(name@),
    {
        if same_text(name, "POST") {
            HttpMethod::Post
        } else if same_text(name, "PUT") {
            HttpMethod::Put
        } else if same_text(name, "DELETE") {
            HttpMethod::Delete
        } else if same_text(name, "PATCH") {
            HttpMethod::Patch
        } else {
            HttpMethod::Get
        }
    }
}

/// Whether an attribute of the given name declares a route.
pub fn is_http_method_attr(name: &str) -> (declares: bool)
    ensures
        declares == HttpMethod::from_attribute_spec(name@) is Some,
{
    HttpMethod::from_attribute(name).is_some()
}

/// Where a handler parameter is taken from.
#[derive(Debug, Clone, Copy, PartialEq, Eq, Structural)]
pub enum ParamKind {
    /// From the body of the request.
    Body,
    /// From the path.
    Param,
    /// From the query string.
    Query,
    /// From the request as it is, by the parameter's own type.
    Raw,
}

impl ParamKind {
    /// The kind that a parameter attribute of the given name declares, if
    /// the name is that of a parameter attribute.
    pub open spec fn from_attribute_spec(name: Seq<char>) -> Option<ParamKind> {
        if name == "body"@ {
            Some(ParamKind::Body)
        } else if name == "param"@ {
            Some(ParamKind::Param)
        } else if name == "query"@ {
            Some(ParamKind::Query)
        } else {
            None
        }
    }

    /// The kind that a parameter attribute of the given name declares.
    pub fn from_attribute(name: &str) -> (kind: Option<ParamKind>)
        ensures
            kind == Self::from_attribute_spec(name@),
    {
        if same_text(name, "body") {
            Some(ParamKind::Body)
        } else if same_text(name, "param") {
            Some(ParamKind::Param)
        } else if same_text(name, "query") {
            Some(ParamKind::Query)
        } else {
            None
        }
    }

    /// The kind of a parameter with the given attributes: that of the first
    /// parameter attribute among them, and `Raw` where there is none.
    pub open spec fn of_spec(attributes: Seq<Seq<char>>) -> ParamKind
        decreases attributes.len(),
    {
        if attributes.len() == 0 {
            ParamKind::Raw
        } else {
            match Self::from_attribute_spec(attributes[0]) {
                Some(kind) => kind,
                None => Self::of_spec(attributes.skip(1)),
            }
        }
    }

    /// The kind of a parameter with the given attributes.
    pub fn of(attributes: &Vec<String>) -> (kind: ParamKind)
        ensures
            kind == Self::of_spec(attributes.deep_view()),
    {
        let count = attributes.len();
        let mut index: usize = 0;
        assert(attributes.deep_view().skip(0) =~= attributes.deep_view());
        while index < count
            invariant
                index <= count,
                count == attributes@.len(),
                Self::of_spec(attributes.deep_view()) == Self::of_spec(
                    attributes.deep_view().skip(index as int),
                ),
            decreases count - index,
        {
            let ghost rest = attributes.deep_view().skip(index as int);
            assert(rest[0] == attributes@[index as int]@);
            assert(rest.skip(1) =~= attributes.deep_view().skip(index + 1));
            match Self::from_attribute(attributes[index].as_str()) {
                Some(kind) => {
                    return kind;
                },
                None => {},
            }
            index = index + 1;
        }
        ParamKind::Raw
    }
}

/// Whether an attribute of the given name declares where a parameter is
/// taken from.
pub fn is_param_attr(name: &str) -> (declares: bool)
    ensures
        declares == ParamKind::from_attribute_spec(name@) is Some,
{
    ParamKind::from_attribute(name).is_some()
}

/// The base path of a controller, given what its declaration sets: the path
/// as set, and the root where none is set.
pub fn base_path(declared: Option<String>) -> (path: String)
    ensures
        path@ == match declared {
            Some(set) => set@,
            None => "/"@,
        },
{
    match declared {
        Some(set) => set,
        None => String::from_str("/"),
    }
}

} // verus!
