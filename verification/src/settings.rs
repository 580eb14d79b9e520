//! The application's settings, as read from its settings file.

use vstd::prelude::*;
use vstd::string::StringExecFns;
use crate::ping::DEFAULT_SAMPLES;
use crate::vlink::{VLink, VLinkView};

verus! {

/// One target to keep up to date: which servers qualify for it and which
/// configuration file receives the best of them.
#[derive(Debug)]
pub struct VlinkProxy {
    /// Pattern that a server's label must match to qualify.
    pub selector: String,
    /// Tag of the outbounds written for this target; `proxy` if absent.
    pub tag: Option<String>,
    /// Path of the configuration file to rewrite.
    pub target_file: String,
    /// How many servers to write; one if absent.
    pub limit: Option<usize>,
    /// The servers that qualify, best first once ranked.
    pub vlinks: Vec<VLink>,
}

/// What contracts see of [`VlinkProxy`].
pub struct VlinkProxyView {
    pub selector: Seq<char>,
    pub tag: Option<Seq<char>>,
    pub target_file: Seq<char>,
    pub limit: Option<usize>,
    pub vlinks: Seq<VLinkView>,
}

impl DeepView for VlinkProxy {
    type V = VlinkProxyView;

    open spec fn deep_view(&self) -> VlinkProxyView {
        VlinkProxyView {
            selector: self.selector@,
            tag: self.tag.deep_view(),
            target_file: self.target_file@,
            limit: self.limit,
            vlinks: self.vlinks.deep_view(),
        }
    }
}

impl View for VlinkProxy {
    type V = VlinkProxyView;

    open spec fn view(&self) -> VlinkProxyView {
        self.deep_view()
    }
}

/// Everything the application is told by its settings file.
#[derive(Debug)]
pub struct AppSettings {
    /// Address of the subscription feed.
    pub sub_url: String,
    /// Least severity that is logged.
    pub loglevel: String,
    /// Name or path of the proxy program.
    pub program: String,
    /// Samples per probe; [`DEFAULT_SAMPLES`] if absent.
    pub ping_times: Option<i32>,
    /// The targets to keep up to date.
    pub proxies: Option<Vec<VlinkProxy>>,
    /// Number of probe workers asked for.
    pub concurrency: Option<usize>,
}

/// What contracts see of [`AppSettings`].
pub struct AppSettingsView {
    pub sub_url: Seq<char>,
    pub loglevel: Seq<char>,
    pub program: Seq<char>,
    pub ping_times: Option<i32>,
    pub proxies: Option<Seq<VlinkProxyView>>,
    pub concurrency: Option<usize>,
}

impl DeepView for AppSettings {
    type V = AppSettingsView;

    open spec fn deep_view(&self) -> AppSettingsView {
        AppSettingsView {
            sub_url: self.sub_url@,
            loglevel: self.loglevel@,
            program: self.program@,
            ping_times: self.ping_times,
            proxies: self.proxies.deep_view(),
            concurrency: self.concurrency,
        }
    }
}

impl View for AppSettings {
    type V = AppSettingsView;

    open spec fn view(&self) -> AppSettingsView {
        self.deep_view()
    }
}

/// The severity that is logged from where the settings name none.
pub fn default_loglevel() -> (r: String)
    ensures
        r@ == "info"@,
{
    String::from_str("info")
}

/// The name under which the proxy program is looked up where the settings
/// name none.
pub fn default_program() -> (r: String)
    ensures
        r@ == "v2ray"@,
{
    String::from_str("v2ray")
}

/// The number of workers to use: the configured one if it is at least one,
/// the number of processors otherwise.
pub open spec fn effective_concurrency(configured: Option<usize>, processors: usize) -> usize {
    match configured {
        Some(c) if c >= 1 => c,
        _ => processors,
    }
}

/// Trusted: `num_cpus::get_physical` returns a count of processor cores. The
/// count depends on the machine, so nothing is claimed of it.
#[verifier::external_body]
fn physical_processors() -> usize {
    num_cpus::get_physical()
}

impl AppSettings {
    /// The number of samples per probe.
    pub fn samples(&self) -> (n: i32)
        ensures
            n == match self.ping_times {
                Some(t) => t,
                None => DEFAULT_SAMPLES,
            },
    {
        match self.ping_times {
            Some(t) => t,
            None => DEFAULT_SAMPLES,
        }
    }

    /// Settles the number of workers for a machine with `processors`
    /// processors. Nothing else changes.
    pub fn settle_concurrency(&mut self, processors: usize)
        ensures
            final(self).concurrency == Some(
                effective_concurrency(old(self).concurrency, processors),
            ),
            final(self).sub_url == old(self).sub_url,
            final(self).loglevel == old(self).loglevel,
            final(self).program == old(self).program,
            final(self).ping_times == old(self).ping_times,
            final(self).proxies == old(self).proxies,
    {
        let settled = match self.concurrency {
            Some(c) => if c >= 1 {
                c
            } else {
                processors
            },
            None => processors,
        };
        self.concurrency = Some(settled);
    }

    /// Settles the number of workers for this machine: a configured number of
    /// at least one is kept, and anything else is replaced by the machine's
    /// count of processor cores. Nothing else changes.
    pub fn settle_concurrency_here(&mut self)
        ensures
            final(self).concurrency is Some,
            old(self).concurrency matches Some(c) ==> (c >= 1 ==> final(self).concurrency == Some(c)),
            final(self).sub_url == old(self).sub_url,
            final(self).loglevel == old(self).loglevel,
            final(self).program == old(self).program,
            final(self).ping_times == old(self).ping_times,
            final(self).proxies == old(self).proxies,
    {
        let processors = physical_processors();
        self.settle_concurrency(processors);
    }
}

} // verus!
