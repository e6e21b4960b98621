//! Decisions of the background services: which services start, and which
//! runners start with which driver.
pub mod tui;

use crate::server::config::{RunnerEntry, ServerConfig};
use crate::server::drivers::{DriverKind, Factory, FactoryError};
use vstd::prelude::*;

verus! {

/// A runner to start.
#[derive(Clone, Debug)]
pub struct RunnerLaunch {
    /// Name of the runner
    pub name: String,
    /// Driver that serves it
    pub driver: DriverKind,
}

/// Runners to start, in configuration order, up to the first whose model has
/// no driver; that model's error comes with them.
#[derive(Clone, Debug)]
pub struct RunnersPlan {
    pub launches: Vec<RunnerLaunch>,
    pub error: Option<FactoryError>,
}

/// Every runner before index `n` has a driver.
pub open spec fn drivers_found(f: Factory, runners: Seq<RunnerEntry>, n: int) -> bool {
    forall|j: int| 0 <= j < n ==> #[trigger] f.driver_for(runners[j].model@) is Some
}

/// Plan the runners of the configuration: each one gets the driver of its
/// model, and the plan stops at the first model without a driver
pub fn plan_runners(factory: &Factory, runners: &Vec<RunnerEntry>) -> (p: RunnersPlan)
    ensures
        p.launches.len() <= runners.len(),
        drivers_found(*factory, runners@, p.launches.len() as int),
        forall|i: int| #![trigger p.launches@[i]] 0 <= i < p.launches.len() ==> (p.launches@[i].name@ == runners@[i].name@
            && factory.driver_for(runners@[i].model@) == Some(p.launches@[i].driver)),
        p.error is None <==> p.launches.len() == runners.len(),
        (forall|i: int, j: int| 0 <= i < j < runners.len() ==> runners@[i].name@ != runners@[j].name@)
            ==> (forall|i: int, j: int| 0 <= i < j < p.launches.len() ==> p.launches@[i].name@ != p.launches@[j].name@),
        p.error matches Some(FactoryError::NoDriver(m)) ==> m@ == runners[p.launches.len() as int].model@
            && factory.driver_for(m@) is None,
{
    let mut launches: Vec<RunnerLaunch> = Vec::new();
    let mut i: usize = 0;
    while i < runners.len()
        invariant
            i <= runners.len(),
            launches.len() == i,
            drivers_found(*factory, runners@, i as int),
            forall|k: int| #![trigger launches@[k]] 0 <= k < i ==> (launches@[k].name@ == runners@[k].name@
                && factory.driver_for(runners@[k].model@) == Some(launches@[k].driver)),
        decreases runners.len() - i,
    {
        match factory.instanciate_driver(runners[i].model.as_str()) {
            Ok(driver) => {
                launches.push(RunnerLaunch { name: runners[i].name.clone(), driver });
            },
            Err(e) => {
                return RunnersPlan { launches, error: Some(e) };
            },
        }
        i = i + 1;
    }
    RunnersPlan { launches, error: None }
}

/// Services to start besides the MCP server.
#[derive(Clone, Copy, Debug)]
pub struct ServicesPlan {
    /// Start the built-in MQTT broker
    pub start_broker: bool,
    /// Start the runners service
    pub start_runners: bool,
}

/// Which services start: the built-in broker when the broker configuration
/// asks for it, the runners when any are configured
pub fn plan_services(config: &ServerConfig, broker_use_builtin: Option<bool>) -> (p: ServicesPlan)
    ensures
        p.start_broker == (broker_use_builtin == Some(true)),
        p.start_runners == (config.runners is Some),
{
    let start_broker = match broker_use_builtin {
        Some(b) => b,
        None => false,
    };
    ServicesPlan { start_broker, start_runners: config.runners.is_some() }
}

} // verus!
