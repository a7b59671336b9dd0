use vstd::prelude::*;

verus! {

/// The fixed, closed set of HTTP methods a scratch pad can hold.
#[derive(Clone, Copy, Debug, PartialEq, Eq, Structural)]
pub enum ScratchPadMethod {
    GET,
    POST,
    PUT,
    PATCH,
    DELETE,
    OPTIONS,
    HEAD,
}

/// The name of a method as it is shown and sent.
pub open spec fn method_name(m: ScratchPadMethod) -> Seq<char> {
    match m {
        ScratchPadMethod::GET => "GET"@,
        ScratchPadMethod::POST => "POST"@,
        ScratchPadMethod::PUT => "PUT"@,
        ScratchPadMethod::PATCH => "PATCH"@,
        ScratchPadMethod::DELETE => "DELETE"@,
        ScratchPadMethod::OPTIONS => "OPTIONS"@,
        ScratchPadMethod::HEAD => "HEAD"@,
    }
}

/// Every method, in the order the method selector lists them.
pub open spec fn all_methods() -> Seq<ScratchPadMethod> {
    seq![
        ScratchPadMethod::GET,
        ScratchPadMethod::POST,
        ScratchPadMethod::PUT,
        ScratchPadMethod::PATCH,
        ScratchPadMethod::DELETE,
        ScratchPadMethod::OPTIONS,
        ScratchPadMethod::HEAD,
    ]
}

impl ScratchPadMethod {
    /// The method's name, e.g. `"PATCH"`.
    pub fn name(&self) -> (r: &'static str)
        ensures
            r@ == method_name(*self),
    {
        match self {
            ScratchPadMethod::GET => "GET",
            ScratchPadMethod::POST => "POST",
            ScratchPadMethod::PUT => "PUT",
            ScratchPadMethod::PATCH => "PATCH",
            ScratchPadMethod::DELETE => "DELETE",
            ScratchPadMethod::OPTIONS => "OPTIONS",
            ScratchPadMethod::HEAD => "HEAD",
        }
    }

    /// All seven methods, in selector order.
    pub fn all() -> (r: Vec<ScratchPadMethod>)
        ensures
            r@ == all_methods(),
    {
        let r = vec![
            ScratchPadMethod::GET,
            ScratchPadMethod::POST,
            ScratchPadMethod::PUT,
            ScratchPadMethod::PATCH,
            ScratchPadMethod::DELETE,
            ScratchPadMethod::OPTIONS,
            ScratchPadMethod::HEAD,
        ];
        assert(r@ =~= all_methods());
        r
    }
}

} // verus!
