//! The registration protocol, as a pure state machine.
//!
//! Registering a service publishes every declared characteristic, in
//! declaration order, strictly before the service itself.  The bus
//! I/O stays outside: `begin_registration` and `step` hand the caller
//! one `BusAction` at a time, and the caller reports each publication
//! outcome back as a `BusEvent`.  A rejected publication aborts the
//! protocol: no further action is handed out for that tree.
//!
//! The registrar carries the whole ordered plan - the characteristic
//! paths in declaration order, then the service path - and the count
//! of actions already handed out; its well-formedness ties every
//! pending characteristic to its slot in the plan, so the action
//! handed out at step `n` always publishes the plan's `n`-th entry.

use vstd::prelude::*;

use crate::gatt::Characteristic;
use crate::gatt::Service;
use crate::util::str_views;

verus! {

/// The outcome of one publication, reported by the caller.
#[derive(Debug, Clone, Copy, PartialEq, Eq, Structural)]
pub enum BusEvent {
    /// The bus accepted the object.
    PublishOk,
    /// The bus rejected the object (for example, the path was
    /// already occupied).
    PublishRejected,
}

/// What the caller must do next: publish the carried object at its
/// computed path on the bus.
#[derive(Debug, PartialEq, Eq)]
pub enum BusAction {
    PublishCharacteristic(Characteristic),
    PublishService(Service),
}

/// Where the protocol stands.
#[derive(Debug, Clone, Copy, PartialEq, Eq, Structural)]
pub enum RegPhase {
    /// Characteristic publications are being handed out.
    Children,
    /// The service's own publication has been handed out.
    AwaitingService,
    /// Everything published; the protocol is complete.
    Done,
    /// A publication was rejected; the protocol is abandoned.
    Failed,
}

/// The ordered registration plan of a service under a base path: each
/// characteristic's path in declaration order, then the service's own
/// path.
pub open spec fn registration_plan(s: Service, base: Seq<char>) -> Seq<Seq<char>> {
    Seq::new(
        s.characteristics@.len(),
        |i: int| s.characteristics@[i].spec_path(s.spec_path(base)),
    ) + seq![s.spec_path(base)]
}

/// `sv` is `orig` marked as holding a bus handle, otherwise
/// unchanged: the form in which the service itself is published.
pub open spec fn service_published_form(orig: Service, sv: Service) -> bool {
    &&& sv.uuid == orig.uuid
    &&& sv.primary == orig.primary
    &&& sv.entity_name == orig.entity_name
    &&& sv.path_override == orig.path_override
    &&& sv.characteristics == orig.characteristics
    &&& sv.characteristic_paths == orig.characteristic_paths
    &&& sv.path == orig.path
    &&& sv.registered
}

/// The held service is configured for publication: its path is
/// computed, its child-path projection covers the whole plan, and its
/// characteristics have been handed over to the registrar.
pub open spec fn service_configured(s: Service, plan: Seq<Seq<char>>, sp: Seq<char>) -> bool {
    &&& s.path matches Some(p) && p@ == sp
    &&& !s.registered
    &&& s.characteristics@.len() == 0
    &&& str_views(s.characteristic_paths@) == plan.take(plan.len() - 1)
}

/// The one-shot driver of a service tree's registration.
pub struct ServiceRegistrar {
    /// The characteristics not yet handed out, in declaration order.
    pub remaining: Vec<Characteristic>,
    /// The configured service, until its own publication is handed
    /// out.
    pub service: Option<Service>,
    /// The service's computed path.
    pub service_path: String,
    /// Where the protocol stands.
    pub phase: RegPhase,
    /// The ordered plan: child paths in declaration order, then the
    /// service path.
    pub plan: Ghost<Seq<Seq<char>>>,
    /// How many publish actions have been handed out.
    pub emitted: Ghost<int>,
    /// The paths of the publish actions handed out so far, in order.
    pub handed: Ghost<Seq<Seq<char>>>,
}

impl ServiceRegistrar {
    /// The registrar's invariant, tying the pending work to the
    /// plan.
    pub open spec fn wf(&self) -> bool {
        &&& self.plan@.len() >= 1
        &&& self.plan@.last() == self.service_path@
        &&& 0 <= self.emitted@ <= self.plan@.len()
        &&& self.handed@ == self.plan@.take(self.emitted@)
        &&& match self.phase {
            RegPhase::Children => {
                &&& 1 <= self.emitted@ <= self.plan@.len() - 1
                &&& self.remaining@.len() == self.plan@.len() - 1 - self.emitted@
                &&& (forall|i: int|
                    0 <= i < self.remaining@.len() ==> (#[trigger] self.remaining@[i]).spec_path(
                        self.service_path@,
                    ) == self.plan@[self.emitted@ + i] && self.remaining@[i].wf())
                &&& self.service matches Some(s) && service_configured(
                    s,
                    self.plan@,
                    self.service_path@,
                )
            },
            RegPhase::AwaitingService => {
                &&& self.emitted@ == self.plan@.len()
                &&& self.remaining@.len() == 0
                &&& self.service is None
            },
            RegPhase::Done => self.emitted@ == self.plan@.len(),
            RegPhase::Failed => true,
        }
    }

    /// Advances the protocol by one reported outcome.
    ///
    /// On a successful publication the next pending characteristic is
    /// configured and handed out; when none is left, the service
    /// itself; after the service, the protocol completes.  On a
    /// rejected publication the protocol fails and nothing further is
    /// handed out.  Each handed-out action publishes the plan entry
    /// whose index is the count of actions handed out before it.
    #[verifier::loop_isolation(false)]
    pub fn step(self, event: BusEvent) -> (r: (ServiceRegistrar, Option<BusAction>))
        requires
            self.wf(),
        ensures
            r.0.wf(),
            r.0.plan@ == self.plan@,
            r.0.service_path == self.service_path,
            (self.phase == RegPhase::Children && event == BusEvent::PublishOk
                && self.remaining@.len() > 0) ==> {
                &&& r.0.phase == RegPhase::Children
                &&& r.0.emitted@ == self.emitted@ + 1
                &&& r.0.remaining@ == self.remaining@.skip(1)
                &&& r.1 matches Some(a) && (a matches BusAction::PublishCharacteristic(c)
                    && self.remaining@[0].spec_registered_at(c, self.service_path@) && c.wf()
                    && c.path->0@ == self.plan@[self.emitted@])
            },
            (self.phase == RegPhase::Children && event == BusEvent::PublishOk
                && self.remaining@.len() == 0) ==> {
                &&& r.0.phase == RegPhase::AwaitingService
                &&& r.0.emitted@ == self.emitted@ + 1 == self.plan@.len()
                &&& r.1 matches Some(a) && (a matches BusAction::PublishService(sv)
                    && service_published_form(self.service->0, sv) && sv.path->0@
                    == self.plan@.last())
            },
            (self.phase == RegPhase::AwaitingService && event == BusEvent::PublishOk) ==> (r.0.phase
                == RegPhase::Done && r.1 is None && r.0.emitted@ == self.emitted@),
            ((self.phase == RegPhase::Children || self.phase == RegPhase::AwaitingService) && event
                == BusEvent::PublishRejected) ==> (r.0.phase == RegPhase::Failed && r.1 is None
                && r.0.emitted@ == self.emitted@),
            (self.phase == RegPhase::Done || self.phase == RegPhase::Failed) ==> (r.0.phase
                == self.phase && r.1 is None && r.0.emitted@ == self.emitted@),
            r.1 is Some ==> r.0.handed@ == self.handed@.push(self.plan@[self.emitted@]),
            r.1 is None ==> r.0.handed@ == self.handed@,
    {
        let ServiceRegistrar { mut remaining, service, service_path, phase, plan, emitted, handed } =
            self;
        match phase {
            RegPhase::Children => match event {
                BusEvent::PublishOk => {
                    if remaining.len() > 0 {
                        let ghost rem0 = remaining@;
                        let child = remaining.remove(0);
                        let c = child.register_at(service_path.as_str());
                        proof {
                            assert(plan@.take(emitted@ + 1) =~= plan@.take(emitted@).push(
                                plan@[emitted@],
                            ));
                            assert(remaining@ =~= rem0.skip(1));
                            assert forall|i: int|
                                0 <= i < remaining@.len() implies (#[trigger] remaining@[i]).spec_path(
                                service_path@,
                            ) == plan@[emitted@ + 1 + i] && remaining@[i].wf() by {
                                assert(remaining@[i] == rem0[i + 1]);
                            }
                        }
                        let reg = ServiceRegistrar {
                            remaining,
                            service,
                            service_path,
                            phase: RegPhase::Children,
                            plan,
                            emitted: Ghost(emitted@ + 1),
                            handed: Ghost(plan@.take(emitted@ + 1)),
                        };
                        (reg, Some(BusAction::PublishCharacteristic(c)))
                    } else {
                        proof {
                            assert(plan@.take(emitted@ + 1) =~= plan@.take(emitted@).push(
                                plan@[emitted@],
                            ));
                        }
                        let mut sv = service.unwrap();
                        sv.registered = true;
                        let reg = ServiceRegistrar {
                            remaining,
                            service: None,
                            service_path,
                            phase: RegPhase::AwaitingService,
                            plan,
                            emitted: Ghost(emitted@ + 1),
                            handed: Ghost(plan@.take(emitted@ + 1)),
                        };
                        (reg, Some(BusAction::PublishService(sv)))
                    }
                },
                BusEvent::PublishRejected => {
                    let reg = ServiceRegistrar {
                        remaining,
                        service,
                        service_path,
                        phase: RegPhase::Failed,
                        plan,
                        emitted,
                        handed,
                    };
                    (reg, None)
                },
            },
            RegPhase::AwaitingService => match event {
                BusEvent::PublishOk => {
                    let reg = ServiceRegistrar {
                        remaining,
                        service,
                        service_path,
                        phase: RegPhase::Done,
                        plan,
                        emitted,
                        handed,
                    };
                    (reg, None)
                },
                BusEvent::PublishRejected => {
                    let reg = ServiceRegistrar {
                        remaining,
                        service,
                        service_path,
                        phase: RegPhase::Failed,
                        plan,
                        emitted,
                        handed,
                    };
                    (reg, None)
                },
            },
            RegPhase::Done => {
                let reg = ServiceRegistrar {
                    remaining,
                    service,
                    service_path,
                    phase: RegPhase::Done,
                    plan,
                    emitted,
                    handed,
                };
                (reg, None)
            },
            RegPhase::Failed => {
                let reg = ServiceRegistrar {
                    remaining,
                    service,
                    service_path,
                    phase: RegPhase::Failed,
                    plan,
                    emitted,
                    handed,
                };
                (reg, None)
            },
        }
    }
}

/// Child-before-parent ordering: while characteristic publications
/// are still being handed out, the service's own publication - the
/// plan's last entry - has not been handed out yet, so every
/// characteristic of the tree is published strictly before the
/// service itself.
pub proof fn lemma_children_publish_before_service(reg: ServiceRegistrar)
    requires
        reg.wf(),
        reg.phase == RegPhase::Children,
    ensures
        reg.emitted@ < reg.plan@.len(),
{
}

/// Completion: a registration that reached `Done` handed out every
/// entry of the plan - all characteristics, in declaration order,
/// and then the service.
pub proof fn lemma_done_published_whole_plan(reg: ServiceRegistrar)
    requires
        reg.wf(),
        reg.phase == RegPhase::Done,
    ensures
        reg.emitted@ == reg.plan@.len(),
{
}

/// The whole-trace ordering law, for a service tree of any size: in
/// every reachable registrar state the publications handed out so
/// far are exactly the first `emitted` entries of the plan - the
/// characteristics in declaration order, then the service, whose
/// publication is the plan's last entry.  While characteristics are
/// pending, that last entry has not been handed out, so every
/// characteristic is published strictly before the service; a `Done`
/// registration handed out the whole plan; a rejection freezes the
/// trace, so everything after the failed publication - later
/// characteristics and the service itself - is never handed out.
pub proof fn lemma_trace_is_plan_prefix(reg: ServiceRegistrar)
    requires
        reg.wf(),
    ensures
        reg.handed@ == reg.plan@.take(reg.emitted@),
        reg.phase == RegPhase::Children ==> reg.emitted@ < reg.plan@.len(),
        reg.phase == RegPhase::Done ==> reg.handed@ == reg.plan@,
{
    if reg.phase == RegPhase::Done {
        assert(reg.plan@.take(reg.plan@.len() as int) =~= reg.plan@);
    }
}

impl Service {
    /// Begins registering the service tree under a base path: the
    /// service's path is computed, every characteristic's path is
    /// collected into the service's child-path projection, and the
    /// first publication is handed out - a characteristic when one is
    /// declared, else the service itself.
    #[verifier::loop_isolation(false)]
    pub fn begin_registration(self, base_path: &str) -> (r: (ServiceRegistrar, BusAction))
        requires
            self.wf(),
        ensures
            r.0.wf(),
            r.0.plan@ == registration_plan(self, base_path@),
            r.0.service_path@ == self.spec_path(base_path@),
            r.0.emitted@ == 1,
            self.characteristics@.len() > 0 ==> {
                &&& r.0.phase == RegPhase::Children
                &&& r.0.remaining@ == self.characteristics@.skip(1)
                &&& r.1 matches BusAction::PublishCharacteristic(c)
                    && self.characteristics@[0].spec_registered_at(c, self.spec_path(base_path@))
                    && c.wf() && c.path->0@ == registration_plan(self, base_path@)[0]
            },
            self.characteristics@.len() == 0 ==> {
                &&& r.0.phase == RegPhase::AwaitingService
                &&& r.1 matches BusAction::PublishService(sv) && sv.registered && sv.uuid
                    == self.uuid && sv.primary == self.primary && sv.path->0@ == self.spec_path(
                    base_path@,
                ) && sv.characteristic_paths@.len() == 0
            },
    {
        let ghost orig = self;
        let ghost base = base_path@;
        let spath: String = self.get_path(base_path);
        let Service {
            uuid,
            primary,
            entity_name,
            path_override,
            characteristics,
            characteristic_paths: _,
            path: _,
            registered: _,
        } = self;
        let mut cpaths: Vec<String> = Vec::new();
        let mut i: usize = 0;
        while i < characteristics.len()
            invariant
                i <= characteristics@.len(),
                cpaths@.len() == i,
                forall|j: int|
                    0 <= j < i ==> (#[trigger] cpaths@[j])@ == characteristics@[j].spec_path(
                        spath@,
                    ),
            decreases characteristics@.len() - i,
        {
            let p = characteristics[i].get_path(spath.as_str());
            cpaths.push(p);
            i = i + 1;
        }
        let svc = Service {
            uuid,
            primary,
            entity_name,
            path_override,
            characteristics: Vec::new(),
            characteristic_paths: cpaths,
            path: Some(spath.clone()),
            registered: false,
        };
        let ghost plan = registration_plan(orig, base);
        proof {
            assert(plan.len() == orig.characteristics@.len() + 1);
            assert(plan.last() == orig.spec_path(base));
            assert(str_views(svc.characteristic_paths@) =~= plan.take(plan.len() - 1)) by {
                assert forall|j: int|
                    0 <= j < svc.characteristic_paths@.len() implies #[trigger] str_views(
                    svc.characteristic_paths@,
                )[j] == plan[j] by {
                    assert(str_views(svc.characteristic_paths@)[j]
                        == svc.characteristic_paths@[j]@);
                }
            }
        }
        let mut remaining = characteristics;
        if remaining.len() > 0 {
            let ghost rem0 = remaining@;
            let child = remaining.remove(0);
            let c = child.register_at(spath.as_str());
            proof {
                assert(remaining@ =~= rem0.skip(1));
                assert forall|t: int|
                    0 <= t < remaining@.len() implies (#[trigger] remaining@[t]).spec_path(spath@)
                    == plan[1 + t] && remaining@[t].wf() by {
                    assert(remaining@[t] == rem0[t + 1]);
                }
            }
            let reg = ServiceRegistrar {
                remaining,
                service: Some(svc),
                service_path: spath,
                phase: RegPhase::Children,
                plan: Ghost(plan),
                emitted: Ghost(1),
                handed: Ghost(plan.take(1)),
            };
            (reg, BusAction::PublishCharacteristic(c))
        } else {
            let sv = Service { registered: true, ..svc };
            let reg = ServiceRegistrar {
                remaining,
                service: None,
                service_path: spath,
                phase: RegPhase::AwaitingService,
                plan: Ghost(plan),
                emitted: Ghost(1),
                handed: Ghost(plan.take(1)),
            };
            (reg, BusAction::PublishService(sv))
        }
    }
}

} // verus!
