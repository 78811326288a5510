//! Which calls are logged.
use vstd::prelude::*;
use crate::headers::HeaderMap;
use crate::text::str_starts_with;

verus! {

/// Decides, from a request's method path and headers, whether its call is logged.
pub trait Predicate: Clone {
    fn should_log(&self, method: &str, headers: &HeaderMap) -> bool;
}

/// Logs every call.
#[derive(Default, Clone, Copy, Debug)]
pub struct LogAll;

impl Predicate for LogAll {
    fn should_log(&self, method: &str, headers: &HeaderMap) -> (r: bool)
        ensures
            r,
    {
        true
    }
}

/// The method-path prefix of the gRPC server reflection service.
pub open spec fn reflection_prefix() -> Seq<char> {
    "/grpc.reflection.v1alpha.ServerReflection"@
}

/// Logs every call but those of the gRPC server reflection service.
#[derive(Default, Clone, Copy, Debug)]
pub struct NoReflection;

impl Predicate for NoReflection {
    fn should_log(&self, method: &str, headers: &HeaderMap) -> (r: bool)
        ensures
            r == !reflection_prefix().is_prefix_of(method@),
    {
        !str_starts_with(method, "/grpc.reflection.v1alpha.ServerReflection")
    }
}

} // verus!
