use vstd::prelude::*;

verus! {

/// Valid request methods.
#[derive(Clone, Copy, Debug, PartialEq, Eq, Structural)]
pub enum Method {
    GET,
    POST,
    PATCH,
    DELETE,
    PUT,
}

/// The upper-case name under which a method goes on the wire.
pub open spec fn method_name(m: Method) -> Seq<char> {
    match m {
        Method::GET => seq!['G', 'E', 'T'],
        Method::POST => seq!['P', 'O', 'S', 'T'],
        Method::PATCH => seq!['P', 'A', 'T', 'C', 'H'],
        Method::DELETE => seq!['D', 'E', 'L', 'E', 'T', 'E'],
        Method::PUT => seq!['P', 'U', 'T'],
    }
}

impl Method {
    /// The method's name, in upper case.
    pub fn as_str(&self) -> (r: &'static str)
        ensures
            r@ == method_name(*self),
    {
        match self {
            Method::GET => {
                proof { reveal_strlit("GET"); }
                "GET"
            },
            Method::POST => {
                proof { reveal_strlit("POST"); }
                "POST"
            },
            Method::PATCH => {
                proof { reveal_strlit("PATCH"); }
                "PATCH"
            },
            Method::DELETE => {
                proof { reveal_strlit("DELETE"); }
                "DELETE"
            },
            Method::PUT => {
                proof { reveal_strlit("PUT"); }
                "PUT"
            },
        }
    }

    /// The method's name as an owned string.
    pub fn to_string(&self) -> (r: String)
        ensures
            r@ == method_name(*self),
    {
        String::from_str(self.as_str())
    }
}

} // verus!
