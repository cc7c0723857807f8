//! The gear: it gets its service once, and serves from then on.

use crate::config::GithubMirrorConfig;
use crate::service::queries::{Service, ServiceConfig};
use vstd::prelude::*;
use vstd::string::*;

verus! {

/// The gear. It has no service until it is initialised.
#[derive(Debug)]
pub struct GithubMirrorGear {
    pub service: Option<Service>,
}

impl Default for GithubMirrorGear {
    fn default() -> (out: Self)
        ensures
            out.service is None,
    {
        GithubMirrorGear { service: None }
    }
}

impl GithubMirrorGear {
    /// Sets the service up. A gear is initialised once.
    pub fn init(&mut self, config: GithubMirrorConfig) -> (out: Result<(), &'static str>)
        ensures
            match out {
                Ok(_) => {
                    &&& old(self).service is None
                    &&& final(self).service == Some(
                        Service {
                            config: ServiceConfig {
                                api_base_url: config.api_base_url,
                                scope: config.scope,
                            },
                        },
                    )
                },
                Err(words) => {
                    &&& old(self).service is Some
                    &&& final(self).service == old(self).service
                    &&& words@ == "github-mirror gear already initialized"@
                },
            },
    {
        if self.service.is_some() {
            return Err("github-mirror gear already initialized");
        }
        self.service = Some(
            Service::new(
                ServiceConfig { api_base_url: config.api_base_url, scope: config.scope },
            ),
        );
        Ok(())
    }

    /// The service that routes are registered for.
    pub fn register_rest(&self) -> (out: Result<&Service, &'static str>)
        ensures
            match out {
                Ok(service) => self.service == Some(*service),
                Err(words) => self.service is None && words@ == "Service not initialized"@,
            },
    {
        match &self.service {
            Some(service) => Ok(service),
            None => Err("Service not initialized"),
        }
    }
}

} // verus!
