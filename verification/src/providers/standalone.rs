//! The permissive default provider: any web request may run the hook.

use crate::env_builder::EnvBuilder;
use crate::errors::{FisherError, FisherErrorV};
use crate::json::{json_of, parse_json};
use crate::requests::{Request, RequestType, RequestV};
use vstd::prelude::*;

verus! {

/// The provider a hook gets when it asks for `Standalone`: it checks
/// nothing beyond the configuration being valid JSON.
pub struct StandaloneProvider {}

/// Whether a Standalone configuration is accepted: any valid JSON.
pub open spec fn standalone_new_spec(config: Seq<char>) -> Result<(), FisherErrorV> {
    if json_of(config) is Some {
        Ok(())
    } else {
        Err(FisherErrorV::InvalidConfig)
    }
}

/// How the Standalone provider classifies a request: every web request
/// may run, nothing else may.
pub open spec fn standalone_validate_spec(r: RequestV) -> RequestType {
    match r {
        RequestV::Web(_) => RequestType::ExecuteHook,
        RequestV::Status(_) => RequestType::Invalid,
    }
}

impl StandaloneProvider {
    /// Accept any valid JSON configuration.
    pub fn new(config: &str) -> (r: Result<Self, FisherError>)
        ensures
            match r {
                Ok(_) => standalone_new_spec(config@) is Ok,
                Err(e) => standalone_new_spec(config@) == Err::<(), FisherErrorV>(e@),
            },
    {
        match parse_json(config) {
            Some(_) => Ok(StandaloneProvider {}),
            None => Err(FisherError::InvalidConfig),
        }
    }

    /// Classify a request.
    pub fn validate(&self, request: &Request) -> (t: RequestType)
        ensures
            t == standalone_validate_spec(request@),
    {
        match request {
            Request::Web(_) => RequestType::ExecuteHook,
            Request::Status(_) => RequestType::Invalid,
        }
    }

    /// The Standalone provider adds nothing to the environment.
    pub fn build_env(&self, _request: &Request, builder: &mut EnvBuilder) -> (r: Result<
        (),
        FisherError,
    >)
        ensures
            r is Ok,
            final(builder)@ == old(builder)@,
    {
        Ok(())
    }
}

impl Clone for StandaloneProvider {
    /// A copy of the provider.
    fn clone(&self) -> (r: Self) {
        StandaloneProvider {}
    }
}

} // verus!
