use vstd::prelude::*;

verus! {

/// A non-standard URL scheme that the engine routes back to the host.
#[derive(Clone, Debug, PartialEq, Eq)]
pub struct CustomProtocol {
    pub scheme: String,
    pub secure: bool,
    pub fetchable: bool,
}

/// Builds a [`CustomProtocol`]; both flags start out set.
pub struct CustomProtocolBuilder(pub CustomProtocol);

impl CustomProtocolBuilder {
    /// Create a new custom protocol for `scheme`, secure and fetchable.
    pub fn new(scheme: &str) -> (r: Self)
        ensures
            r.0.scheme@ == scheme@,
            r.0.secure,
            r.0.fetchable,
    {
        CustomProtocolBuilder(CustomProtocol { scheme: scheme.to_owned(), secure: true, fetchable: true })
    }

    /// Set if the protocol can be used by `fetch`.
    pub fn set_fetchable(self, fetchable: bool) -> (r: Self)
        ensures
            r.0.fetchable == fetchable,
            r.0.secure == self.0.secure,
            r.0.scheme == self.0.scheme,
    {
        let mut s = self;
        s.0.fetchable = fetchable;
        s
    }

    /// Set if the protocol can be used in a secure context.
    pub fn set_secure(self, secure: bool) -> (r: Self)
        ensures
            r.0.secure == secure,
            r.0.fetchable == self.0.fetchable,
            r.0.scheme == self.0.scheme,
    {
        let mut s = self;
        s.0.secure = secure;
        s
    }
}

impl From<CustomProtocolBuilder> for CustomProtocol {
    fn from(value: CustomProtocolBuilder) -> (r: CustomProtocol)
        ensures
            r == value.0,
    {
        value.0
    }
}

impl vstd::std_specs::convert::FromSpecImpl<CustomProtocolBuilder> for CustomProtocol {
    open spec fn obeys_from_spec() -> bool {
        true
    }

    open spec fn from_spec(v: CustomProtocolBuilder) -> CustomProtocol {
        v.0
    }
}

} // verus!
