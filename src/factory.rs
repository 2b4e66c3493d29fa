//! The service factory: builds each shared service of an invocation on first
//! request and hands out the same handle afterwards.

use vstd::prelude::*;
use crate::exit::CliError;

verus! {

/// The services shared within one invocation.
#[derive(Clone, Copy, Debug, PartialEq, Eq, Structural)]
pub enum ServiceKind {
    DependencyResolver,
    SourceCache,
    WorkerBuilder,
}

/// What `get` tells the caller to do.
#[derive(Clone, Copy, Debug, PartialEq, Eq, Structural)]
pub enum FactoryStep {
    /// The service was built before: use this handle.
    Cached(u64),
    /// The service was never built: build it and hand the result to `store`.
    Build,
}

/// The step for `kind` given the handles built so far.
pub open spec fn step_for(built: Map<ServiceKind, u64>, kind: ServiceKind) -> FactoryStep {
    if built.contains_key(kind) {
        FactoryStep::Cached(built[kind])
    } else {
        FactoryStep::Build
    }
}

/// The memo of built services; a handle is an identifier that the caller
/// chose for the service it built.
pub struct ServiceFactory {
    dependency_resolver: Option<u64>,
    source_cache: Option<u64>,
    worker_builder: Option<u64>,
}

impl ServiceFactory {
    /// The handles built so far, by kind.
    pub closed spec fn view(&self) -> Map<ServiceKind, u64> {
        let m0 = Map::<ServiceKind, u64>::empty();
        let m1 = match self.dependency_resolver {
            Some(h) => m0.insert(ServiceKind::DependencyResolver, h),
            None => m0,
        };
        let m2 = match self.source_cache {
            Some(h) => m1.insert(ServiceKind::SourceCache, h),
            None => m1,
        };
        match self.worker_builder {
            Some(h) => m2.insert(ServiceKind::WorkerBuilder, h),
            None => m2,
        }
    }

    closed spec fn slot(&self, kind: ServiceKind) -> Option<u64> {
        match kind {
            ServiceKind::DependencyResolver => self.dependency_resolver,
            ServiceKind::SourceCache => self.source_cache,
            ServiceKind::WorkerBuilder => self.worker_builder,
        }
    }

    proof fn lemma_view_slot(&self, kind: ServiceKind)
        ensures
            self.view().contains_key(kind) == (self.slot(kind) is Some),
            self.slot(kind) is Some ==> self.view()[kind] == self.slot(kind)->Some_0,
    {
    }

    /// A factory with nothing built.
    pub fn new() -> (f: ServiceFactory)
        ensures
            f@ == Map::<ServiceKind, u64>::empty(),
    {
        let f = ServiceFactory { dependency_resolver: None, source_cache: None, worker_builder: None };
        assert(f@ =~= Map::<ServiceKind, u64>::empty());
        f
    }

    /// The handle of `kind` if it was built, else the request to build it.
    pub fn get(&self, kind: ServiceKind) -> (r: FactoryStep)
        ensures
            r == step_for(self@, kind),
    {
        proof {
            self.lemma_view_slot(kind);
        }
        let slot = match kind {
            ServiceKind::DependencyResolver => self.dependency_resolver,
            ServiceKind::SourceCache => self.source_cache,
            ServiceKind::WorkerBuilder => self.worker_builder,
        };
        match slot {
            Some(h) => FactoryStep::Cached(h),
            None => FactoryStep::Build,
        }
    }

    /// Whether `kind` was built.
    pub fn is_built(&self, kind: ServiceKind) -> (b: bool)
        ensures
            b == self@.contains_key(kind),
    {
        match self.get(kind) {
            FactoryStep::Cached(_) => true,
            FactoryStep::Build => false,
        }
    }

    /// Records the result of building `kind`. A built handle is kept and
    /// returned; a failure is passed on and not remembered, so nothing is
    /// cached for it.
    pub fn store(&mut self, kind: ServiceKind, built: Result<u64, CliError>) -> (r: Result<
        u64,
        CliError,
    >)
        requires
            !old(self)@.contains_key(kind),
        ensures
            r == built,
            built is Ok ==> final(self)@ == old(self)@.insert(kind, built->Ok_0),
            built is Err ==> final(self)@ == old(self)@,
    {
        match built {
            Ok(h) => {
                let ghost before = self@;
                match kind {
                    ServiceKind::DependencyResolver => self.dependency_resolver = Some(h),
                    ServiceKind::SourceCache => self.source_cache = Some(h),
                    ServiceKind::WorkerBuilder => self.worker_builder = Some(h),
                }
                assert(self@ =~= before.insert(kind, h));
                Ok(h)
            },
            Err(e) => Err(e),
        }
    }
}

/// Once a service is built, every later `get` of its kind returns that same
/// handle, and no second build is asked for; the other kinds are untouched.
pub proof fn lemma_built_once(built: Map<ServiceKind, u64>, kind: ServiceKind, h: u64, other: ServiceKind)
    requires
        !built.contains_key(kind),
    ensures
        step_for(built, kind) == FactoryStep::Build,
        step_for(built.insert(kind, h), kind) == FactoryStep::Cached(h),
        other != kind ==> step_for(built.insert(kind, h), other) == step_for(built, other),
{
}

} // verus!
