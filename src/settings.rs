//! Agent settings: the chains it is configured for, the metrics port and the
//! tracing configuration.
use vstd::prelude::*;
use crate::types::HyperlaneDomain;

verus! {

/// The configuration of one chain.
#[derive(Debug)]
pub struct ChainConf {
    /// The domain the chain is.
    pub domain: HyperlaneDomain,
}

/// How log lines are formatted.
#[derive(Clone, Copy, Debug, PartialEq, Eq, Structural)]
pub enum Style {
    Pretty,
    Full,
    Compact,
    Json,
}

/// The least severe level that is logged.
#[derive(Clone, Copy, Debug, PartialEq, Eq, Structural)]
pub enum Level {
    Off,
    Error,
    Warn,
    Info,
    Debug,
    Trace,
}

/// The tracing configuration.
#[derive(Clone, Copy, Debug, PartialEq, Eq, Structural)]
pub struct TracingConfig {
    pub fmt: Style,
    pub level: Level,
}

/// Why a setting could not be resolved.
#[derive(Clone, Copy, Debug, PartialEq, Eq, Structural)]
pub enum SettingsError {
    /// No chain of that name is configured.
    NoChainSetup,
}

/// Settings shared by every agent.
#[derive(Debug)]
pub struct Settings {
    /// Configuration for contracts on each chain, by chain name. Names are
    /// meant to be unique; where one repeats, lookups find its first entry.
    pub chains: Vec<(String, ChainConf)>,
    /// Port to listen for prometheus scrape requests.
    pub metrics_port: u16,
    /// The tracing configuration.
    pub tracing: TracingConfig,
}

/// What an agent is built from: its metrics and its own copy of the settings.
#[derive(Debug)]
pub struct HyperlaneAgentCore<M> {
    pub metrics: M,
    pub settings: Settings,
}

impl ChainConf {
    pub fn clone_conf(&self) -> (r: ChainConf)
        ensures
            r.domain.id == self.domain.id,
            r.domain.name@ == self.domain.name@,
    {
        ChainConf { domain: self.domain.clone_domain() }
    }
}

/// Whether `a` and `b` have the same chains, in the same order, with the same
/// names and domains.
pub open spec fn same_chains(a: Seq<(String, ChainConf)>, b: Seq<(String, ChainConf)>) -> bool {
    &&& a.len() == b.len()
    &&& forall|i: int|
        0 <= i < a.len() ==> (#[trigger] a[i]).0@ == b[i].0@ && a[i].1.domain.id == b[i].1.domain.id
            && a[i].1.domain.name@ == b[i].1.domain.name@
}

/// The position of the first chain named `name`, if any.
pub open spec fn first_chain_named(chains: Seq<(String, ChainConf)>, name: Seq<char>) -> Option<int> {
    if exists|i: int| 0 <= i < chains.len() && (#[trigger] chains[i]).0@ == name {
        Some(
            choose|i: int|
                0 <= i < chains.len() && (#[trigger] chains[i]).0@ == name && forall|j: int|
                    0 <= j < i ==> (#[trigger] chains[j]).0@ != name,
        )
    } else {
        None
    }
}

impl Settings {
    /// Builds an agent core from `metrics` and a copy of the settings.
    pub fn build_hyperlane_core<M>(&self, metrics: M) -> (r: HyperlaneAgentCore<M>)
        ensures
            r.metrics == metrics,
            same_chains(r.settings.chains@, self.chains@),
            r.settings.metrics_port == self.metrics_port,
            r.settings.tracing == self.tracing,
    {
        HyperlaneAgentCore { metrics, settings: self.clone() }
    }

    /// A copy of the settings.
    pub fn clone(&self) -> (r: Settings)
        ensures
            same_chains(r.chains@, self.chains@),
            r.metrics_port == self.metrics_port,
            r.tracing == self.tracing,
    {
        let mut chains: Vec<(String, ChainConf)> = Vec::new();
        let mut i: usize = 0;
        while i < self.chains.len()
            invariant
                i <= self.chains@.len(),
                same_chains(chains@, self.chains@.subrange(0, i as int)),
            decreases self.chains@.len() - i,
        {
            let name = self.chains[i].0.clone();
            let conf = self.chains[i].1.clone_conf();
            chains.push((name, conf));
            i = i + 1;
        }
        assert(self.chains@.subrange(0, self.chains@.len() as int) =~= self.chains@);
        Settings { chains, metrics_port: self.metrics_port, tracing: self.tracing }
    }

    /// The position of the first chain named `name`.
    fn position(&self, name: &String) -> (r: Option<usize>)
        ensures
            match r {
                Some(k) => k < self.chains@.len() && first_chain_named(self.chains@, name@) == Some(
                    k as int,
                ),
                None => first_chain_named(self.chains@, name@).is_none(),
            },
    {
        let mut i: usize = 0;
        while i < self.chains.len()
            invariant
                i <= self.chains@.len(),
                forall|j: int| 0 <= j < i ==> (#[trigger] self.chains@[j]).0@ != name@,
            decreases self.chains@.len() - i,
        {
            if self.chains[i].0 == *name {
                proof {
                    let chains = self.chains@;
                    assert(chains[i as int].0@ == name@);
                    assert(0 <= i < chains.len() && (#[trigger] chains[i as int]).0@ == name@
                        && forall|j: int| 0 <= j < i ==> (#[trigger] chains[j]).0@ != name@);
                    let c = choose|c: int|
                        0 <= c < chains.len() && (#[trigger] chains[c]).0@ == name@ && forall|j: int|
                            0 <= j < c ==> (#[trigger] chains[j]).0@ != name@;
                    if c < i {
                        assert(chains[c].0@ != name@);
                    } else if c > i {
                        assert(chains[i as int].0@ != name@);
                    }
                }
                return Some(i);
            }
            i = i + 1;
        }
        None
    }

    /// The configuration of the chain of `domain`, found by its name.
    pub fn chain_setup(&self, domain: &HyperlaneDomain) -> (r: Result<&ChainConf, SettingsError>)
        ensures
            match first_chain_named(self.chains@, domain.name@) {
                Some(i) => r == Ok::<&ChainConf, SettingsError>(&self.chains@[i].1),
                None => r == Err::<&ChainConf, SettingsError>(SettingsError::NoChainSetup),
            },
    {
        match self.position(&domain.name) {
            Some(i) => Ok(&self.chains[i].1),
            None => Err(SettingsError::NoChainSetup),
        }
    }

    /// The domain of the chain named `chain_name`.
    pub fn lookup_domain(&self, chain_name: &str) -> (r: Result<HyperlaneDomain, SettingsError>)
        ensures
            match first_chain_named(self.chains@, chain_name@) {
                Some(i) => r matches Ok(d) && d.id == self.chains@[i].1.domain.id && d.name@
                    == self.chains@[i].1.domain.name@,
                None => r == Err::<HyperlaneDomain, SettingsError>(SettingsError::NoChainSetup),
            },
    {
        let name = chain_name.to_owned();
        match self.position(&name) {
            Some(i) => Ok(self.chains[i].1.domain.clone_domain()),
            None => Err(SettingsError::NoChainSetup),
        }
    }
}

} // verus!
