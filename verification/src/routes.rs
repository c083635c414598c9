//! The route tree: which fragment of the metrics each endpoint names, which
//! samplers it needs, and what a request for it returns.
//!
//! A request is handled in two steps, with the reads of the operating
//! system between them. `plan` says whether the request goes on and what
//! has to be read; `serve` takes what was read and gives the response. A
//! request that the access gate denied, or that names a part that is not
//! collected, is answered before anything is read.

use vstd::prelude::*;
use crate::error::MetricsError;
use crate::metrics::{
    hundredths_of, CpuLoadMetric, CpuLoadModel, CpuMetrics, CpuModel, MemoryDetailedMetrics,
    MemoryMetrics, MemoryModel, Metrics, MetricsModel,
};
use crate::percent::Percent;
use crate::sampler::{
    after_sample, build_metrics, cpu_outcome, lemma_cpu_outcome_valid,
    lemma_memory_outcome_valid, lemma_metrics_outcome_complete, memory_outcome, metrics_outcome,
    reading_model, sample_memory, usable, Collection, CpuSnapshot, SamplerModel, SamplerState,
    SnapshotModel,
};

verus! {

/// The endpoints below the processor scope.
#[derive(Clone, Copy, Debug, PartialEq, Eq, Structural, Hash)]
pub enum CpuRoute {
    /// The processor metrics.
    Whole,
    /// The CPU load.
    Load,
    /// The average of the CPU load alone.
    LoadAverage,
    /// The per-core values of the CPU load alone.
    LoadPerCore,
}

/// The endpoints below the memory scope.
#[derive(Clone, Copy, Debug, PartialEq, Eq, Structural, Hash)]
pub enum MemoryRoute {
    /// The memory metrics.
    Whole,
    /// The used share alone.
    PercUsed,
    /// The byte counts alone.
    Detailed,
}

/// An endpoint of the route tree.
#[derive(Clone, Copy, Debug, PartialEq, Eq, Structural, Hash)]
pub enum Route {
    /// The root: the whole snapshot.
    All,
    /// An endpoint of the processor scope.
    Cpu(CpuRoute),
    /// An endpoint of the memory scope.
    Memory(MemoryRoute),
}

/// What the access gate decided of a request.
#[derive(Clone, Copy, Debug, PartialEq, Eq, Structural, Hash)]
pub enum Admission {
    Allow,
    Deny,
}

/// Which counters a request needs read.
#[derive(Clone, Copy, Debug, PartialEq, Eq, Structural, Hash)]
pub struct Reads {
    pub cpu: bool,
    pub memory: bool,
}

/// The fragment of the metrics that a response carries, one form for each
/// endpoint.
#[derive(Clone, Debug, PartialEq, Eq)]
pub enum Fragment {
    All(Metrics),
    Cpu(CpuMetrics),
    CpuLoad(CpuLoadMetric),
    CpuLoadAverage(Percent),
    CpuLoadPerCore(Vec<Percent>),
    Memory(MemoryMetrics),
    MemoryPercUsed(Percent),
    MemoryDetailed(MemoryDetailedMetrics),
}

/// Model of `Fragment`.
pub enum FragmentModel {
    All(MetricsModel),
    Cpu(CpuModel),
    CpuLoad(CpuLoadModel),
    CpuLoadAverage(nat),
    CpuLoadPerCore(Seq<nat>),
    Memory(MemoryModel),
    MemoryPercUsed(nat),
    MemoryDetailed(MemoryDetailedMetrics),
}

impl View for Fragment {
    type V = FragmentModel;

    open spec fn view(&self) -> FragmentModel {
        match *self {
            Fragment::All(metrics) => FragmentModel::All(metrics@),
            Fragment::Cpu(cpu) => FragmentModel::Cpu(cpu@),
            Fragment::CpuLoad(load) => FragmentModel::CpuLoad(load@),
            Fragment::CpuLoadAverage(average) => FragmentModel::CpuLoadAverage(average@),
            Fragment::CpuLoadPerCore(cores) => FragmentModel::CpuLoadPerCore(hundredths_of(cores@)),
            Fragment::Memory(memory) => FragmentModel::Memory(memory@),
            Fragment::MemoryPercUsed(share) => FragmentModel::MemoryPercUsed(share@),
            Fragment::MemoryDetailed(detail) => FragmentModel::MemoryDetailed(detail),
        }
    }
}

impl FragmentModel {
    /// Every percentage in the fragment is at most 100 %, and its byte
    /// counts are consistent.
    pub open spec fn valid(self) -> bool {
        match self {
            FragmentModel::All(metrics) => metrics.valid(),
            FragmentModel::Cpu(cpu) => cpu.valid(),
            FragmentModel::CpuLoad(load) => load.valid(),
            FragmentModel::CpuLoadAverage(average) => average <= 10000,
            FragmentModel::CpuLoadPerCore(cores) => forall|i: int|
                0 <= i < cores.len() ==> #[trigger] cores[i] <= 10000,
            FragmentModel::Memory(memory) => memory.valid(),
            FragmentModel::MemoryPercUsed(share) => share <= 10000,
            FragmentModel::MemoryDetailed(detail) => detail.consistent(),
        }
    }

    /// The endpoint whose form the fragment has.
    pub open spec fn route(self) -> Route {
        match self {
            FragmentModel::All(_) => Route::All,
            FragmentModel::Cpu(_) => Route::Cpu(CpuRoute::Whole),
            FragmentModel::CpuLoad(_) => Route::Cpu(CpuRoute::Load),
            FragmentModel::CpuLoadAverage(_) => Route::Cpu(CpuRoute::LoadAverage),
            FragmentModel::CpuLoadPerCore(_) => Route::Cpu(CpuRoute::LoadPerCore),
            FragmentModel::Memory(_) => Route::Memory(MemoryRoute::Whole),
            FragmentModel::MemoryPercUsed(_) => Route::Memory(MemoryRoute::PercUsed),
            FragmentModel::MemoryDetailed(_) => Route::Memory(MemoryRoute::Detailed),
        }
    }
}

impl Route {
    /// The counters that the endpoint needs: those of the processors below
    /// the processor scope, those of the memory below the memory scope,
    /// both at the root.
    pub open spec fn needs(self) -> Reads {
        match self {
            Route::All => Reads { cpu: true, memory: true },
            Route::Cpu(_) => Reads { cpu: true, memory: false },
            Route::Memory(_) => Reads { cpu: false, memory: true },
        }
    }

    /// Whether what the endpoint names is collected. The endpoints of an
    /// optional part are available only where that part is switched on.
    pub open spec fn available(self, collection: Collection) -> bool {
        match self {
            Route::Cpu(CpuRoute::Load) | Route::Cpu(CpuRoute::LoadAverage) => collection.cpu_load,
            Route::Cpu(CpuRoute::LoadPerCore) => collection.cpu_load && collection.per_core,
            Route::Memory(MemoryRoute::Detailed) => collection.memory_detailed,
            _ => true,
        }
    }

    /// Computes `needs`.
    pub fn reads(&self) -> (r: Reads)
        ensures
            r == self.needs(),
    {
        match self {
            Route::All => Reads { cpu: true, memory: true },
            Route::Cpu(_) => Reads { cpu: true, memory: false },
            Route::Memory(_) => Reads { cpu: false, memory: true },
        }
    }

    /// Computes `available`.
    pub fn is_available(&self, collection: Collection) -> (r: bool)
        ensures
            r == self.available(collection),
    {
        match self {
            Route::Cpu(CpuRoute::Load) => collection.cpu_load,
            Route::Cpu(CpuRoute::LoadAverage) => collection.cpu_load,
            Route::Cpu(CpuRoute::LoadPerCore) => collection.cpu_load && collection.per_core,
            Route::Memory(MemoryRoute::Detailed) => collection.memory_detailed,
            _ => true,
        }
    }
}

/// The fragment of the processor metrics that an endpoint names, or
/// `MetricUnavailable` where the metrics do not hold it.
pub open spec fn cpu_fragment(route: CpuRoute, cpu: CpuModel) -> Result<
    FragmentModel,
    MetricsError,
> {
    match route {
        CpuRoute::Whole => Ok(FragmentModel::Cpu(cpu)),
        CpuRoute::Load => match cpu.load {
            Some(load) => Ok(FragmentModel::CpuLoad(load)),
            None => Err(MetricsError::MetricUnavailable),
        },
        CpuRoute::LoadAverage => match cpu.load {
            Some(load) => Ok(FragmentModel::CpuLoadAverage(load.average)),
            None => Err(MetricsError::MetricUnavailable),
        },
        CpuRoute::LoadPerCore => match cpu.load {
            Some(CpuLoadModel { per_core: Some(cores), .. }) => Ok(
                FragmentModel::CpuLoadPerCore(cores),
            ),
            _ => Err(MetricsError::MetricUnavailable),
        },
    }
}

/// The fragment of the memory metrics that an endpoint names, or
/// `MetricUnavailable` where the metrics do not hold it.
pub open spec fn memory_fragment(route: MemoryRoute, memory: MemoryModel) -> Result<
    FragmentModel,
    MetricsError,
> {
    match route {
        MemoryRoute::Whole => Ok(FragmentModel::Memory(memory)),
        MemoryRoute::PercUsed => Ok(FragmentModel::MemoryPercUsed(memory.perc_used)),
        MemoryRoute::Detailed => match memory.detailed {
            Some(detail) => Ok(FragmentModel::MemoryDetailed(detail)),
            None => Err(MetricsError::MetricUnavailable),
        },
    }
}

/// What the first step answers: the failure that ends the request, or the
/// counters to read.
pub open spec fn planned(admission: Admission, route: Route, collection: Collection) -> Result<
    Reads,
    MetricsError,
> {
    if admission is Deny {
        Err(MetricsError::AuthorizationDenied)
    } else if !route.available(collection) {
        Err(MetricsError::MetricUnavailable)
    } else {
        Ok(route.needs())
    }
}

/// The response to a request, given what the reads returned.
pub open spec fn response(
    admission: Admission,
    route: Route,
    state: SamplerModel,
    cpu_reading: Option<SnapshotModel>,
    memory_reading: Option<MemoryDetailedMetrics>,
) -> Result<FragmentModel, MetricsError> {
    match planned(admission, route, state.collection) {
        Err(e) => Err(e),
        Ok(_) => match route {
            Route::All => match metrics_outcome(
                state.baseline,
                cpu_reading,
                memory_reading,
                state.collection,
            ) {
                Ok(metrics) => Ok(FragmentModel::All(metrics)),
                Err(e) => Err(e),
            },
            Route::Cpu(sub) => match cpu_outcome(state.baseline, cpu_reading, state.collection) {
                Ok(cpu) => cpu_fragment(sub, cpu),
                Err(e) => Err(e),
            },
            Route::Memory(sub) => match memory_outcome(memory_reading, state.collection) {
                Ok(memory) => memory_fragment(sub, memory),
                Err(e) => Err(e),
            },
        },
    }
}

/// The response to a request below the memory scope. It depends on no
/// sampler state and on no processor reading.
pub open spec fn memory_response(
    admission: Admission,
    route: MemoryRoute,
    collection: Collection,
    memory_reading: Option<MemoryDetailedMetrics>,
) -> Result<FragmentModel, MetricsError> {
    response(
        admission,
        Route::Memory(route),
        SamplerModel { baseline: None, collection },
        None,
        memory_reading,
    )
}

/// The sampler after a request. Only a request that went on to sample the
/// processors has touched it.
pub open spec fn state_after(
    admission: Admission,
    route: Route,
    state: SamplerModel,
    cpu_reading: Option<SnapshotModel>,
) -> SamplerModel {
    if planned(admission, route, state.collection) matches Ok(reads) && reads.cpu {
        after_sample(state, cpu_reading)
    } else {
        state
    }
}

/// The first step of a request: whether it goes on, and with which reads.
///
/// A denied request fails with `AuthorizationDenied`, an admitted one for
/// a part that is not collected with `MetricUnavailable`. Any other is told
/// the counters to read before it calls `serve`.
pub fn plan(admission: Admission, route: Route, collection: Collection) -> (r: Result<
    Reads,
    MetricsError,
>)
    ensures
        r == planned(admission, route, collection),
{
    match admission {
        Admission::Deny => Err(MetricsError::AuthorizationDenied),
        Admission::Allow => {
            if route.is_available(collection) {
                Ok(route.reads())
            } else {
                Err(MetricsError::MetricUnavailable)
            }
        },
    }
}

/// Selects from the processor metrics the fragment that an endpoint names.
pub fn select_cpu(route: CpuRoute, cpu: CpuMetrics) -> (r: Result<Fragment, MetricsError>)
    ensures
        match r {
            Ok(fragment) => cpu_fragment(route, cpu@) == Ok::<FragmentModel, MetricsError>(
                fragment@,
            ),
            Err(e) => cpu_fragment(route, cpu@) == Err::<FragmentModel, MetricsError>(e),
        },
{
    match route {
        CpuRoute::Whole => Ok(Fragment::Cpu(cpu)),
        CpuRoute::Load => match cpu.load {
            Some(load) => Ok(Fragment::CpuLoad(load)),
            None => Err(MetricsError::MetricUnavailable),
        },
        CpuRoute::LoadAverage => match cpu.load {
            Some(load) => Ok(Fragment::CpuLoadAverage(load.average)),
            None => Err(MetricsError::MetricUnavailable),
        },
        CpuRoute::LoadPerCore => match cpu.load {
            Some(load) => match load.per_core {
                Some(cores) => Ok(Fragment::CpuLoadPerCore(cores)),
                None => Err(MetricsError::MetricUnavailable),
            },
            None => Err(MetricsError::MetricUnavailable),
        },
    }
}

/// Selects from the memory metrics the fragment that an endpoint names.
pub fn select_memory(route: MemoryRoute, memory: MemoryMetrics) -> (r: Result<
    Fragment,
    MetricsError,
>)
    ensures
        match r {
            Ok(fragment) => memory_fragment(route, memory@) == Ok::<FragmentModel, MetricsError>(
                fragment@,
            ),
            Err(e) => memory_fragment(route, memory@) == Err::<FragmentModel, MetricsError>(e),
        },
{
    match route {
        MemoryRoute::Whole => Ok(Fragment::Memory(memory)),
        MemoryRoute::PercUsed => Ok(Fragment::MemoryPercUsed(memory.perc_used)),
        MemoryRoute::Detailed => match memory.detailed {
            Some(detail) => Ok(Fragment::MemoryDetailed(detail)),
            None => Err(MetricsError::MetricUnavailable),
        },
    }
}

/// The second step of a request below the memory scope. It takes no
/// sampler: the memory is sampled without state and without a lock.
///
/// The response is that of `serve` for the same endpoint, whatever the
/// sampler holds.
pub fn serve_memory(
    admission: Admission,
    route: MemoryRoute,
    collection: Collection,
    memory_reading: Option<MemoryDetailedMetrics>,
) -> (r: Result<Fragment, MetricsError>)
    ensures
        match r {
            Ok(fragment) => memory_response(admission, route, collection, memory_reading) == Ok::<
                FragmentModel,
                MetricsError,
            >(fragment@),
            Err(e) => memory_response(admission, route, collection, memory_reading) == Err::<
                FragmentModel,
                MetricsError,
            >(e),
        },
{
    match plan(admission, Route::Memory(route), collection) {
        Err(e) => Err(e),
        Ok(_) => match sample_memory(memory_reading, collection) {
            Ok(memory) => select_memory(route, memory),
            Err(e) => Err(e),
        },
    }
}

/// The second step of a request: the response, from what was read.
///
/// `cpu_reading` and `memory_reading` hold what the caller read after
/// `plan`, `None` for a read that failed. A reading that the endpoint does
/// not need is not looked at. A request that `plan` ends is answered here
/// with the same failure and leaves the sampler as it was, so does one
/// that needs the memory alone.
pub fn serve(
    admission: Admission,
    route: Route,
    sampler: &mut SamplerState,
    cpu_reading: Option<CpuSnapshot>,
    memory_reading: Option<MemoryDetailedMetrics>,
) -> (r: Result<Fragment, MetricsError>)
    ensures
        final(sampler)@ == state_after(
            admission,
            route,
            old(sampler)@,
            reading_model(cpu_reading),
        ),
        match r {
            Ok(fragment) => response(
                admission,
                route,
                old(sampler)@,
                reading_model(cpu_reading),
                memory_reading,
            ) == Ok::<FragmentModel, MetricsError>(fragment@),
            Err(e) => response(
                admission,
                route,
                old(sampler)@,
                reading_model(cpu_reading),
                memory_reading,
            ) == Err::<FragmentModel, MetricsError>(e),
        },
{
    let collection = sampler.collection();
    match plan(admission, route, collection) {
        Err(e) => Err(e),
        Ok(_) => match route {
            Route::All => match build_metrics(sampler, cpu_reading, memory_reading) {
                Ok(metrics) => Ok(Fragment::All(metrics)),
                Err(e) => Err(e),
            },
            Route::Cpu(sub) => match sampler.sample_cpu(cpu_reading) {
                Ok(cpu) => select_cpu(sub, cpu),
                Err(e) => Err(e),
            },
            Route::Memory(sub) => serve_memory(admission, sub, collection, memory_reading),
        },
    }
}

/// The path that an endpoint is bound to.
pub open spec fn path_of(route: Route) -> Seq<char> {
    match route {
        Route::All => "/"@,
        Route::Cpu(CpuRoute::Whole) => "/cpu"@,
        Route::Cpu(CpuRoute::Load) => "/cpu/load"@,
        Route::Cpu(CpuRoute::LoadAverage) => "/cpu/load/average"@,
        Route::Cpu(CpuRoute::LoadPerCore) => "/cpu/load/per-core"@,
        Route::Memory(MemoryRoute::Whole) => "/memory"@,
        Route::Memory(MemoryRoute::PercUsed) => "/memory/perc-used"@,
        Route::Memory(MemoryRoute::Detailed) => "/memory/detailed"@,
    }
}

/// Whether two texts are the same.
fn same_text(a: &str, b: &str) -> (r: bool)
    ensures
        r == (a@ == b@),
{
    let left = a.to_owned();
    let right = b.to_owned();
    left == right
}

impl Route {
    /// The path that the endpoint is bound to.
    pub fn path(&self) -> (r: &'static str)
        ensures
            r@ == path_of(*self),
    {
        match self {
            Route::All => "/",
            Route::Cpu(CpuRoute::Whole) => "/cpu",
            Route::Cpu(CpuRoute::Load) => "/cpu/load",
            Route::Cpu(CpuRoute::LoadAverage) => "/cpu/load/average",
            Route::Cpu(CpuRoute::LoadPerCore) => "/cpu/load/per-core",
            Route::Memory(MemoryRoute::Whole) => "/memory",
            Route::Memory(MemoryRoute::PercUsed) => "/memory/perc-used",
            Route::Memory(MemoryRoute::Detailed) => "/memory/detailed",
        }
    }

    /// The endpoint that is bound to a path, if there is one.
    pub fn resolve(path: &str) -> (r: Option<Route>)
        ensures
            match r {
                Some(route) => path@ == path_of(route),
                None => forall|route: Route| path@ != #[trigger] path_of(route),
            },
    {
        if same_text(path, "/") {
            Some(Route::All)
        } else if same_text(path, "/cpu") {
            Some(Route::Cpu(CpuRoute::Whole))
        } else if same_text(path, "/cpu/load") {
            Some(Route::Cpu(CpuRoute::Load))
        } else if same_text(path, "/cpu/load/average") {
            Some(Route::Cpu(CpuRoute::LoadAverage))
        } else if same_text(path, "/cpu/load/per-core") {
            Some(Route::Cpu(CpuRoute::LoadPerCore))
        } else if same_text(path, "/memory") {
            Some(Route::Memory(MemoryRoute::Whole))
        } else if same_text(path, "/memory/perc-used") {
            Some(Route::Memory(MemoryRoute::PercUsed))
        } else if same_text(path, "/memory/detailed") {
            Some(Route::Memory(MemoryRoute::Detailed))
        } else {
            None
        }
    }
}

/// No two endpoints share a path, so a path names at most one endpoint and
/// resolving the path of an endpoint gives that endpoint back.
pub proof fn lemma_paths_distinct(a: Route, b: Route)
    requires
        path_of(a) == path_of(b),
    ensures
        a == b,
{
    reveal_strlit("/");
    reveal_strlit("/cpu");
    reveal_strlit("/cpu/load");
    reveal_strlit("/cpu/load/average");
    reveal_strlit("/cpu/load/per-core");
    reveal_strlit("/memory");
    reveal_strlit("/memory/perc-used");
    reveal_strlit("/memory/detailed");
    assert("/"@.len() == 1);
    assert("/cpu"@.len() == 4);
    assert("/cpu/load"@.len() == 9);
    assert("/cpu/load/average"@.len() == 17 && "/cpu/load/average"@[1] == 'c');
    assert("/cpu/load/per-core"@.len() == 18);
    assert("/memory"@.len() == 7);
    assert("/memory/perc-used"@.len() == 17 && "/memory/perc-used"@[1] == 'm');
    assert("/memory/detailed"@.len() == 16);
}

/// A denied request is answered with `AuthorizationDenied` before anything
/// is read, and the sampler is as it was: whatever the endpoint, the state
/// and the readings.
pub proof fn lemma_denied_request_samples_nothing(
    route: Route,
    state: SamplerModel,
    cpu_reading: Option<SnapshotModel>,
    memory_reading: Option<MemoryDetailedMetrics>,
)
    ensures
        planned(Admission::Deny, route, state.collection) == Err::<Reads, MetricsError>(
            MetricsError::AuthorizationDenied,
        ),
        response(Admission::Deny, route, state, cpu_reading, memory_reading) == Err::<
            FragmentModel,
            MetricsError,
        >(MetricsError::AuthorizationDenied),
        state_after(Admission::Deny, route, state, cpu_reading) == state,
{
}

/// An admitted request for a part that is not collected is answered with
/// `MetricUnavailable`, never with a value, and reads nothing.
pub proof fn lemma_disabled_part_is_unavailable(
    route: Route,
    state: SamplerModel,
    cpu_reading: Option<SnapshotModel>,
    memory_reading: Option<MemoryDetailedMetrics>,
)
    requires
        !route.available(state.collection),
    ensures
        planned(Admission::Allow, route, state.collection) == Err::<Reads, MetricsError>(
            MetricsError::MetricUnavailable,
        ),
        response(Admission::Allow, route, state, cpu_reading, memory_reading) == Err::<
            FragmentModel,
            MetricsError,
        >(MetricsError::MetricUnavailable),
        state_after(Admission::Allow, route, state, cpu_reading) == state,
{
}

/// Where the collection of the CPU load is switched off, an admitted
/// request for the CPU load is answered with `MetricUnavailable`: not with
/// a load of zero, and whatever the reads would have returned.
pub proof fn lemma_disabled_load_is_unavailable(
    state: SamplerModel,
    cpu_reading: Option<SnapshotModel>,
    memory_reading: Option<MemoryDetailedMetrics>,
)
    requires
        !state.collection.cpu_load,
    ensures
        response(
            Admission::Allow,
            Route::Cpu(CpuRoute::Load),
            state,
            cpu_reading,
            memory_reading,
        ) == Err::<FragmentModel, MetricsError>(MetricsError::MetricUnavailable),
{
}

/// A request succeeds exactly when it was admitted, names a part that is
/// collected, and every read that its endpoint needs succeeded. The
/// fragment then has the form of that endpoint and no other.
pub proof fn lemma_response_matches_route(
    admission: Admission,
    route: Route,
    state: SamplerModel,
    cpu_reading: Option<SnapshotModel>,
    memory_reading: Option<MemoryDetailedMetrics>,
)
    ensures
        response(admission, route, state, cpu_reading, memory_reading) is Ok <==> {
            &&& admission is Allow
            &&& route.available(state.collection)
            &&& route.needs().cpu ==> cpu_reading is Some
            &&& route.needs().memory ==> usable(memory_reading)
        },
        response(admission, route, state, cpu_reading, memory_reading) matches Ok(fragment)
            ==> fragment.route() == route,
{
    lemma_cpu_outcome_valid(state.baseline, cpu_reading, state.collection);
    lemma_memory_outcome_valid(memory_reading, state.collection);
    lemma_metrics_outcome_complete(state.baseline, cpu_reading, memory_reading, state.collection);
}

/// Every fragment that a request returns is valid: no percentage in it is
/// above 100 %.
pub proof fn lemma_response_valid(
    admission: Admission,
    route: Route,
    state: SamplerModel,
    cpu_reading: Option<SnapshotModel>,
    memory_reading: Option<MemoryDetailedMetrics>,
)
    ensures
        response(admission, route, state, cpu_reading, memory_reading) matches Ok(fragment)
            ==> fragment.valid(),
{
    lemma_cpu_outcome_valid(state.baseline, cpu_reading, state.collection);
    lemma_memory_outcome_valid(memory_reading, state.collection);
    lemma_metrics_outcome_complete(state.baseline, cpu_reading, memory_reading, state.collection);
}

/// Each failure of a request has its own cause, and none of them is fatal:
/// a denied request fails with `AuthorizationDenied`, an admitted one for a
/// part that is not collected with `MetricUnavailable`, and one whose read
/// failed with `SamplerUnavailable`.
pub proof fn lemma_response_failures(
    admission: Admission,
    route: Route,
    state: SamplerModel,
    cpu_reading: Option<SnapshotModel>,
    memory_reading: Option<MemoryDetailedMetrics>,
)
    ensures
        response(admission, route, state, cpu_reading, memory_reading) matches Err(e) ==> {
            &&& e.per_request()
            &&& e == MetricsError::AuthorizationDenied <==> admission is Deny
            &&& e == MetricsError::MetricUnavailable <==> admission is Allow && !route.available(
                state.collection,
            )
            &&& e == MetricsError::SamplerUnavailable <==> admission is Allow && route.available(
                state.collection,
            )
        },
{
    lemma_cpu_outcome_valid(state.baseline, cpu_reading, state.collection);
    lemma_memory_outcome_valid(memory_reading, state.collection);
    lemma_metrics_outcome_complete(state.baseline, cpu_reading, memory_reading, state.collection);
}

/// A request below the memory scope neither reads nor writes the sampler's
/// baseline: its response is the same whatever the sampler holds and
/// whatever was read of the processors, and the sampler is as it was.
pub proof fn lemma_memory_requests_need_no_sampler(
    admission: Admission,
    route: MemoryRoute,
    state: SamplerModel,
    cpu_reading: Option<SnapshotModel>,
    memory_reading: Option<MemoryDetailedMetrics>,
)
    ensures
        state_after(admission, Route::Memory(route), state, cpu_reading) == state,
        response(admission, Route::Memory(route), state, cpu_reading, memory_reading)
            == memory_response(admission, route, state.collection, memory_reading),
{
}

} // verus!
