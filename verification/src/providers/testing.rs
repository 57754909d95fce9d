//! The provider the test suite drives: query parameters steer its
//! answers, so every path through a hook can be exercised.

use crate::env_builder::{EnvBuilder, EnvBuilderV};
use crate::errors::{FisherError, FisherErrorV};
use crate::requests::{Request, RequestType, RequestV};
use crate::strutil::{ascii_bytes, str_bytes, str_eq, upper_of};
use vstd::prelude::*;

verus! {

/// A provider whose behaviour is steered by the request's query
/// parameters; only test hooks use it.
pub struct TestingProvider {
    config: String,
}

impl View for TestingProvider {
    type V = Seq<char>;

    closed spec fn view(&self) -> Seq<char> {
        self.config@
    }
}

/// Whether a Testing configuration is accepted: anything but the
/// literal `FAIL`, which fails with a nonsensical error kept for test
/// parity.
pub open spec fn testing_new_spec(config: Seq<char>) -> Result<Seq<char>, FisherErrorV> {
    if config != "FAIL"@ {
        Ok(config)
    } else {
        Err(FisherErrorV::ProviderNotFound(Seq::empty()))
    }
}

/// How the Testing provider classifies a request: a wrong `secret` or a
/// `ip` parameter different from the source rejects it, a
/// `request_type=ping` parameter turns it into a ping, anything else
/// runs the hook.
pub open spec fn testing_validate_spec(r: RequestV) -> RequestType {
    match r {
        RequestV::Web(req) => {
            if req.params.contains_key("secret"@) && req.params["secret"@] != "testing"@ {
                RequestType::Invalid
            } else if req.params.contains_key("ip"@) && req.params["ip"@] != req.source {
                RequestType::Invalid
            } else if req.params.contains_key("request_type"@) && req.params["request_type"@]
                == "ping"@ {
                RequestType::Ping
            } else {
                RequestType::ExecuteHook
            }
        },
        RequestV::Status(_) => RequestType::Invalid,
    }
}

/// What the Testing provider leaves in the builder: an `ENV` variable
/// when the request carries an `env` parameter, and a `prepared` data
/// file holding the line `prepared`.
pub open spec fn testing_build_env_spec(r: RequestV, before: EnvBuilderV) -> EnvBuilderV {
    match r {
        RequestV::Web(req) => {
            let with_env = if req.params.contains_key("env"@) {
                before.env.insert("ENV"@, req.params["env"@])
            } else {
                before.env
            };
            EnvBuilderV {
                env: with_env.insert(upper_of("prepared"@), "prepared"@),
                files: before.files.insert("prepared"@, ascii_bytes("prepared\n"@)),
            }
        },
        RequestV::Status(_) => before,
    }
}

/// Whether status hooks should run: yes, unless the request carries an
/// `ignore_status_hooks` parameter.
pub open spec fn testing_status_hooks_spec(r: RequestV) -> bool {
    match r {
        RequestV::Web(req) => !req.params.contains_key("ignore_status_hooks"@),
        RequestV::Status(_) => true,
    }
}

impl TestingProvider {
    /// Accept any configuration but the literal `FAIL`.
    pub fn new(config: &str) -> (r: Result<Self, FisherError>)
        ensures
            match r {
                Ok(p) => testing_new_spec(config@) == Ok::<_, FisherErrorV>(p@),
                Err(e) => testing_new_spec(config@) == Err::<Seq<char>, _>(e@),
            },
    {
        if !str_eq(config, "FAIL") {
            Ok(TestingProvider { config: config.to_owned() })
        } else {
            Err(FisherError::ProviderNotFound(String::new()))
        }
    }

    /// Classify a request by its query parameters.
    pub fn validate(&self, request: &Request) -> (t: RequestType)
        ensures
            t == testing_validate_spec(request@),
    {
        let req = match request {
            Request::Web(req) => req,
            Request::Status(_) => {
                return RequestType::Invalid;
            },
        };
        if let Some(secret) = req.params.get("secret") {
            if !str_eq(secret.as_str(), "testing") {
                return RequestType::Invalid;
            }
        }
        if let Some(ip) = req.params.get("ip") {
            if !str_eq(ip.as_str(), req.source.as_str()) {
                return RequestType::Invalid;
            }
        }
        if let Some(request_type) = req.params.get("request_type") {
            if str_eq(request_type.as_str(), "ping") {
                return RequestType::Ping;
            }
        }
        RequestType::ExecuteHook
    }

    /// Record the `prepared` data file and, when asked, the `ENV`
    /// variable.
    pub fn build_env(&self, request: &Request, builder: &mut EnvBuilder) -> (r: Result<
        (),
        FisherError,
    >)
        ensures
            r is Ok,
            final(builder)@ == testing_build_env_spec(request@, old(builder)@),
    {
        let req = match request {
            Request::Web(req) => req,
            Request::Status(_) => {
                return Ok(());
            },
        };
        if let Some(env) = req.params.get("env") {
            let value = env.clone();
            builder.add_env("ENV", value.as_str());
        }
        proof {
            reveal_strlit("prepared\n");
        }
        let content = str_bytes("prepared\n");
        builder.data_file("prepared", content);
        Ok(())
    }

    /// Whether status hooks should run after a job for this request.
    pub fn trigger_status_hooks(&self, request: &Request) -> (r: bool)
        ensures
            r == testing_status_hooks_spec(request@),
    {
        match request {
            Request::Web(req) => !req.params.contains_key("ignore_status_hooks"),
            Request::Status(_) => true,
        }
    }
}

impl Clone for TestingProvider {
    /// A copy with the same configuration.
    fn clone(&self) -> (r: Self)
        ensures
            r@ == self@,
    {
        TestingProvider { config: self.config.clone() }
    }
}

} // verus!
