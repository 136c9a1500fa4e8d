use vstd::prelude::*;

verus! {

/// An enum of the HTTP methods supported by the GitHub REST API
#[derive(Clone, Copy, Debug, Hash, Eq, PartialEq, Structural)]
pub enum Method {
    Get,
    Head,
    Post,
    Put,
    Patch,
    Delete,
}

/// The uppercase name of a method
pub open spec fn method_name(m: Method) -> Seq<char> {
    match m {
        Method::Get => "GET"@,
        Method::Head => "HEAD"@,
        Method::Post => "POST"@,
        Method::Put => "PUT"@,
        Method::Patch => "PATCH"@,
        Method::Delete => "DELETE"@,
    }
}

/// `a` and `b` are equal up to the case of ASCII letters
pub open spec fn eq_ignore_ascii_case(a: Seq<char>, b: Seq<char>) -> bool {
    a.len() == b.len() && forall|i: int| 0 <= i < a.len() ==> chars_eq_ignore_case(#[trigger] a[i], b[i])
}

pub open spec fn chars_eq_ignore_case(x: char, y: char) -> bool {
    let a = x as u32;
    let b = y as u32;
    a == b || (97 <= a <= 122 && a == b + 32) || (97 <= b <= 122 && b == a + 32)
}

/// The method whose name equals `s` up to ASCII case, if any
pub open spec fn method_from_name(s: Seq<char>) -> Option<Method> {
    if eq_ignore_ascii_case(s, "GET"@) {
        Some(Method::Get)
    } else if eq_ignore_ascii_case(s, "HEAD"@) {
        Some(Method::Head)
    } else if eq_ignore_ascii_case(s, "POST"@) {
        Some(Method::Post)
    } else if eq_ignore_ascii_case(s, "PUT"@) {
        Some(Method::Put)
    } else if eq_ignore_ascii_case(s, "PATCH"@) {
        Some(Method::Patch)
    } else if eq_ignore_ascii_case(s, "DELETE"@) {
        Some(Method::Delete)
    } else {
        None
    }
}

pub open spec fn spec_is_mutating(m: Method) -> bool {
    m == Method::Post || m == Method::Put || m == Method::Patch || m == Method::Delete
}

/// Error returned when parsing a method name fails
#[derive(Clone, Copy, Debug, Eq, Hash, PartialEq, Structural)]
pub struct ParseMethodError;

impl ParseMethodError {
    /// A description of the error
    pub fn message(&self) -> (r: &'static str) {
        "invalid method name"
    }
}

fn ascii_eq_ignore_case(s: &str, name: &str) -> (r: bool)
    ensures
        r == eq_ignore_ascii_case(s@, name@),
{
    let n = s.unicode_len();
    if n != name.unicode_len() {
        return false;
    }
    let mut i: usize = 0;
    while i < n
        invariant
            n == s@.len(),
            n == name@.len(),
            0 <= i <= n,
            forall|j: int| 0 <= j < i ==> chars_eq_ignore_case(#[trigger] s@[j], name@[j]),
        decreases n - i,
    {
        let x = s.get_char(i);
        let y = name.get_char(i);
        let a = x as u32;
        let b = y as u32;
        let same = a == b || (97 <= a && a <= 122 && a == b + 32) || (97 <= b && b <= 122 && b == a
            + 32);
        if !same {
            return false;
        }
        i = i + 1;
    }
    true
}

impl Method {
    /// Returns the name of the method as an uppercase ASCII string
    pub fn as_str(&self) -> (r: &'static str)
        ensures
            r@ == method_name(*self),
    {
        match self {
            Method::Get => "GET",
            Method::Head => "HEAD",
            Method::Post => "POST",
            Method::Put => "PUT",
            Method::Patch => "PATCH",
            Method::Delete => "DELETE",
        }
    }

    /// Returns true if this is a mutating method (i.e., POST, PUT, PATCH, or
    /// DELETE).
    pub fn is_mutating(&self) -> (r: bool)
        ensures
            r == spec_is_mutating(*self),
    {
        match self {
            Method::Post | Method::Put | Method::Patch | Method::Delete => true,
            _ => false,
        }
    }

    /// Parse a method from its name, ignoring ASCII case
    pub fn parse(s: &str) -> (r: Result<Method, ParseMethodError>)
        ensures
            r matches Ok(m) ==> method_from_name(s@) == Some(m),
            r is Err <==> method_from_name(s@) is None,
    {
        if ascii_eq_ignore_case(s, "GET") {
            Ok(Method::Get)
        } else if ascii_eq_ignore_case(s, "HEAD") {
            Ok(Method::Head)
        } else if ascii_eq_ignore_case(s, "POST") {
            Ok(Method::Post)
        } else if ascii_eq_ignore_case(s, "PUT") {
            Ok(Method::Put)
        } else if ascii_eq_ignore_case(s, "PATCH") {
            Ok(Method::Patch)
        } else if ascii_eq_ignore_case(s, "DELETE") {
            Ok(Method::Delete)
        } else {
            Err(ParseMethodError)
        }
    }
}

impl std::str::FromStr for Method {
    type Err = ParseMethodError;

    /// Parse a method from its name, ignoring ASCII case
    fn from_str(s: &str) -> Result<Method, ParseMethodError> {
        Method::parse(s)
    }
}

/// Every method's name parses back to that method.
pub proof fn lemma_method_name_round_trip(m: Method)
    ensures
        method_from_name(method_name(m)) == Some(m),
{
    reveal_strlit("GET");
    reveal_strlit("HEAD");
    reveal_strlit("POST");
    reveal_strlit("PUT");
    reveal_strlit("PATCH");
    reveal_strlit("DELETE");
    let s = method_name(m);
    assert(eq_ignore_ascii_case(s, s));
    if m != Method::Get {
        assert(!eq_ignore_ascii_case(s, "GET"@)) by {
            if s.len() == 3 {
                assert(!chars_eq_ignore_case(s[0], "GET"@[0]) || !chars_eq_ignore_case(s[1], "GET"@[1]));
            }
        }
    }
    if m != Method::Head {
        assert(!eq_ignore_ascii_case(s, "HEAD"@)) by {
            if s.len() == 4 {
                assert(!chars_eq_ignore_case(s[0], "HEAD"@[0]));
            }
        }
    }
    if m != Method::Post {
        assert(!eq_ignore_ascii_case(s, "POST"@)) by {
            if s.len() == 4 {
                assert(!chars_eq_ignore_case(s[0], "POST"@[0]));
            }
        }
    }
    if m != Method::Put {
        assert(!eq_ignore_ascii_case(s, "PUT"@)) by {
            if s.len() == 3 {
                assert(!chars_eq_ignore_case(s[0], "PUT"@[0]));
            }
        }
    }
    if m != Method::Patch {
        assert(!eq_ignore_ascii_case(s, "PATCH"@)) by {
            if s.len() == 5 {
                assert(!chars_eq_ignore_case(s[0], "PATCH"@[0]));
            }
        }
    }
}

/// Parsing the name of a method, under any ASCII casing, yields that method.
pub proof fn lemma_method_parse_ignores_case(m: Method, s: Seq<char>)
    requires
        eq_ignore_ascii_case(s, method_name(m)),
    ensures
        method_from_name(s) == Some(m),
{
    reveal_strlit("GET");
    reveal_strlit("HEAD");
    reveal_strlit("POST");
    reveal_strlit("PUT");
    reveal_strlit("PATCH");
    reveal_strlit("DELETE");
    lemma_method_name_round_trip(m);
    let n = method_name(m);
    assert(forall|i: int| 0 <= i < n.len() ==> 65 <= #[trigger] n[i] as u32 <= 90);
    assert forall|t: Seq<char>| eq_ignore_ascii_case(s, t) <==> eq_ignore_ascii_case(n, t) by {
        if s.len() == t.len() {
            assert forall|i: int| #![trigger s[i]] #![trigger n[i]] 0 <= i < n.len() implies (
            chars_eq_ignore_case(s[i], t[i]) <==> chars_eq_ignore_case(n[i], t[i])) by {
                assert(chars_eq_ignore_case(s[i], n[i]));
                assert(65 <= n[i] as u32 <= 90);
            }
        }
    }
}

} // verus!
