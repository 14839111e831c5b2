//! The instance registry and the decisions of the lifecycle operations.

use vstd::prelude::*;

use crate::collaborators::sanitize_name;
use crate::collaborators::generate_identifier;
use crate::collaborators::sanitized;
use crate::config::InstanceConfig;
use crate::errors::InstanceError;
use crate::errors::Operation;
use crate::plan::CreatePlan;
use crate::plan::DeletePlan;

verus! {

/// The mathematical model of one registry entry.
pub struct EntryModel {
    pub uuid: Seq<char>,
    pub name: Seq<char>,
    pub path: Seq<char>,
    pub channel_active: bool,
}

/// One live instance as the registry records it: its immutable identifier,
/// its sanitized name (unique among live instances), the root of its on-disk
/// footprint, and whether its control channel is currently active.
#[derive(Clone, Debug)]
pub struct InstanceEntry {
    pub uuid: String,
    pub name: String,
    pub path: String,
    pub channel_active: bool,
}

impl View for InstanceEntry {
    type V = EntryModel;

    open spec fn view(&self) -> EntryModel {
        EntryModel {
            uuid: self.uuid@,
            name: self.name@,
            path: self.path@,
            channel_active: self.channel_active,
        }
    }
}

/// Whether some entry of the registry carries the given identifier.
pub open spec fn has_uuid(s: Seq<EntryModel>, uuid: Seq<char>) -> bool {
    exists|i: int| 0 <= i < s.len() && s[i].uuid == uuid
}

/// Whether some live instance already holds the given sanitized name.
pub open spec fn has_name(s: Seq<EntryModel>, name: Seq<char>) -> bool {
    exists|i: int| 0 <= i < s.len() && s[i].name == name
}

/// The position of the entry carrying the given identifier.
pub open spec fn uuid_index(s: Seq<EntryModel>, uuid: Seq<char>) -> int {
    choose|i: int| 0 <= i < s.len() && s[i].uuid == uuid
}

/// The entry carrying the given identifier.
pub open spec fn entry_of(s: Seq<EntryModel>, uuid: Seq<char>) -> EntryModel {
    s[uuid_index(s, uuid)]
}

/// The registry of live instances and the root path under which their
/// directories live.
pub struct InstanceManager {
    entries: Vec<InstanceEntry>,
    path: String,
    avail_ports: Vec<u16>,
}

impl View for InstanceManager {
    type V = Seq<EntryModel>;

    closed spec fn view(&self) -> Seq<EntryModel> {
        self.entries@.map(|i: int, e: InstanceEntry| e@)
    }
}

impl InstanceManager {
    /// The root path, expected to end with a path separator, under which
    /// every instance directory is created.
    pub closed spec fn root(self) -> Seq<char> {
        self.path@
    }

    /// The pool of network ports available for assignment. Declared for a
    /// reservation mechanism that is not populated yet.
    pub closed spec fn ports(self) -> Seq<u16> {
        self.avail_ports@
    }

    /// The registry invariant: identifiers and sanitized names are unique
    /// among live instances.
    pub open spec fn wf(self) -> bool {
        forall|i: int, j: int|
            0 <= i < self@.len() && 0 <= j < self@.len() && i != j
                ==> self@[i].uuid != self@[j].uuid && self@[i].name != self@[j].name
    }

    /// A fresh orchestrator over the given root path, with an empty registry
    /// and an empty port pool.
    pub fn new(path: String) -> (m: InstanceManager)
        ensures
            m.wf(),
            m@ == Seq::<EntryModel>::empty(),
            m.root() == path@,
            m.ports() == Seq::<u16>::empty(),
    {
        let m = InstanceManager { entries: Vec::new(), path, avail_ports: Vec::new() };
        proof {
            assert(m@ =~= Seq::<EntryModel>::empty());
            assert(m.ports() =~= Seq::<u16>::empty());
        }
        m
    }

    /// Whether a live instance already holds the given sanitized name: a
    /// linear scan of the registry. Only currently-loaded instances are
    /// consulted, never historical or deleted ones.
    fn check_if_name_exists(&self, name: &String) -> (r: bool)
        ensures
            r == has_name(self@, name@),
    {
        let n = self.entries.len();
        let mut j: usize = 0;
        while j < n
            invariant
                n == self.entries.len(),
                j <= n,
                forall|k: int| 0 <= k < j ==> self@[k].name != name@,
            decreases n - j,
        {
            if self.entries[j].name == *name {
                assert(self@[j as int].name == name@);
                return true;
            }
            j += 1;
        }
        false
    }

    /// The position of the entry with the given identifier, if one is
    /// registered.
    fn position_of(&self, uuid: &String) -> (r: Option<usize>)
        ensures
            match r {
                Some(i) => i < self@.len() && self@[i as int].uuid == uuid@,
                None => !has_uuid(self@, uuid@),
            },
    {
        let n = self.entries.len();
        let mut j: usize = 0;
        while j < n
            invariant
                n == self.entries.len(),
                j <= n,
                forall|k: int| 0 <= k < j ==> self@[k].uuid != uuid@,
            decreases n - j,
        {
            if self.entries[j].uuid == *uuid {
                assert(self@[j as int].uuid == uuid@);
                return Some(j);
            }
            j += 1;
        }
        None
    }

    /// The first half of instance creation: sanitize the requested name,
    /// refuse it if a live instance already holds it, generate a fresh
    /// identifier, attach it to the config, and lay out the paths the runner
    /// must create. The registry is not touched: the instance becomes live
    /// only when the runner, after the on-disk steps succeed, registers the
    /// plan.
    pub fn plan_create(&self, config: InstanceConfig) -> (r: Result<
        CreatePlan,
        InstanceError,
    >)
        ensures
            r is Err <==> has_name(self@, sanitized(config.name@)),
            r matches Err(e) ==> e matches InstanceError::NameExists(n) && n@ == sanitized(
                config.name@,
            ),
            r matches Ok(plan) ==> {
                &&& plan.name@ == sanitized(config.name@)
                &&& plan.instance_path@ == self.root() + plan.name@ + "/"@
                &&& plan.uuid@.len() == 36
                &&& plan.config.name@ == plan.name@
                &&& plan.config.uuid matches Some(u) && u@ == plan.uuid@
                &&& plan.config.version@ == config.version@
                &&& plan.config.flavour@ == config.flavour@
                &&& plan.config.url@ == config.url@
                &&& plan.config.min_ram == config.min_ram
                &&& plan.config.max_ram == config.max_ram
            },
    {
        let name = sanitize_name(config.name.as_str());
        if self.check_if_name_exists(&name) {
            return Err(InstanceError::NameExists(name));
        }
        let uuid = generate_identifier();
        let instance_path = self.path.clone().concat(name.as_str()).concat("/");
        let completed = InstanceConfig {
            name: name.clone(),
            version: config.version,
            flavour: config.flavour,
            url: config.url,
            uuid: Some(uuid.clone()),
            min_ram: config.min_ram,
            max_ram: config.max_ram,
        };
        Ok(CreatePlan { uuid, name, instance_path, config: completed })
    }

    /// The second half of instance creation: insert the planned instance
    /// into the registry, the point at which it becomes live for
    /// name-uniqueness checks. The name is checked again, so of two plans
    /// carrying the same sanitized name only the first to register succeeds;
    /// a fresh-identifier collision is refused likewise. On success the
    /// identifier is returned; on failure the registry is unchanged.
    pub fn register_instance(&mut self, plan: CreatePlan) -> (r: Result<String, InstanceError>)
        requires
            old(self).wf(),
        ensures
            final(self).wf(),
            final(self).root() == old(self).root(),
            final(self).ports() == old(self).ports(),
            r is Ok <==> !has_name(old(self)@, plan.name@) && !has_uuid(old(self)@, plan.uuid@),
            r matches Ok(u) ==> u@ == plan.uuid@ && final(self)@ == old(self)@.push(
                EntryModel {
                    uuid: plan.uuid@,
                    name: plan.name@,
                    path: plan.instance_path@,
                    channel_active: false,
                },
            ),
            r is Ok ==> has_uuid(final(self)@, plan.uuid@) && has_name(final(self)@, plan.name@)
                && entry_of(final(self)@, plan.uuid@) == (EntryModel {
                uuid: plan.uuid@,
                name: plan.name@,
                path: plan.instance_path@,
                channel_active: false,
            }),
            r is Err ==> final(self)@ == old(self)@,
            r matches Err(e) ==> {
                &&& has_name(old(self)@, plan.name@) ==> (e matches InstanceError::NameExists(n)
                    && n@ == plan.name@)
                &&& !has_name(old(self)@, plan.name@) ==> e is IdentifierExists
            },
    {
        if self.check_if_name_exists(&plan.name) {
            return Err(InstanceError::NameExists(plan.name));
        }
        if self.position_of(&plan.uuid).is_some() {
            return Err(InstanceError::IdentifierExists);
        }
        let uuid = plan.uuid.clone();
        let entry = InstanceEntry {
            uuid: plan.uuid,
            name: plan.name,
            path: plan.instance_path,
            channel_active: false,
        };
        let ghost pre = self@;
        self.entries.push(entry);
        proof {
            assert(self@ =~= pre.push(entry@));
            assert forall|i: int, j: int|
                0 <= i < self@.len() && 0 <= j < self@.len() && i != j implies self@[i].uuid
                != self@[j].uuid && self@[i].name != self@[j].name by {
                if i < pre.len() && j < pre.len() {
                    assert(old(self)@[i].uuid != old(self)@[j].uuid);
                }
            }
            let n = pre.len() as int;
            assert(self@[n].uuid == plan.uuid@ && self@[n].name == plan.name@);
            let j = uuid_index(self@, plan.uuid@);
            assert(0 <= j < self@.len() && self@[j].uuid == plan.uuid@);
            assert(j == n);
        }
        Ok(uuid)
    }

    /// Removes the identified instance from the registry; it ceases to be
    /// live the moment this returns. The returned plan names what is left to
    /// tear down: the metadata-store entry and the directory tree. A failure
    /// of that later teardown cannot restore the entry: removal is complete
    /// here, and deletion is best-effort past this point.
    pub fn delete_instance(&mut self, uuid: String) -> (r: Result<DeletePlan, InstanceError>)
        requires
            old(self).wf(),
        ensures
            final(self).wf(),
            final(self).root() == old(self).root(),
            final(self).ports() == old(self).ports(),
            r is Ok <==> has_uuid(old(self)@, uuid@),
            r is Err ==> final(self)@ == old(self)@,
            r matches Err(e) ==> e == InstanceError::NotFound(Operation::Delete),
            r matches Ok(p) ==> {
                &&& p.uuid@ == uuid@
                &&& exists|i: int|
                    0 <= i < old(self)@.len() && old(self)@[i].uuid == uuid@ && final(self)@ == old(
                        self,
                    )@.remove(i) && p.directory_path@ == old(self).root() + old(self)@[i].name
            },
            !has_uuid(final(self)@, uuid@),
    {
        match self.position_of(&uuid) {
            None => Err(InstanceError::NotFound(Operation::Delete)),
            Some(i) => {
                let ghost pre = self@;
                let entry = self.entries.remove(i);
                let directory_path = self.path.clone().concat(entry.name.as_str());
                proof {
                    assert(self@ =~= pre.remove(i as int));
                    assert forall|k: int, l: int|
                        0 <= k < self@.len() && 0 <= l < self@.len() && k != l implies (self@[k].uuid
                        != self@[l].uuid && self@[k].name != self@[l].name) by {
                        let k0: int = if k < i { k } else { k + 1 };
                        let l0: int = if l < i { l } else { l + 1 };
                        assert(pre[k0].uuid != pre[l0].uuid);
                    }
                    assert forall|k: int| 0 <= k < self@.len() implies self@[k].uuid != uuid@ by {
                        let k0: int = if k < i { k } else { k + 1 };
                        assert(pre[k0].uuid != pre[i as int].uuid);
                    }
                }
                Ok(DeletePlan { uuid, directory_path })
            },
        }
    }

    /// The precondition check of instance cloning: if the identified
    /// instance exists and its derived name (the name with a copy suffix) is
    /// already taken, the clone is refused; otherwise nothing happens. The
    /// duplication itself is not performed: the operation is a stub beyond
    /// this check, and the registry is never changed.
    pub fn clone_instance(&mut self, uuid: String) -> (r: Result<(), InstanceError>)
        requires
            old(self).wf(),
        ensures
            final(self).wf(),
            final(self)@ == old(self)@,
            final(self).root() == old(self).root(),
            final(self).ports() == old(self).ports(),
            r is Err <==> has_uuid(old(self)@, uuid@) && has_name(
                old(self)@,
                entry_of(old(self)@, uuid@).name + "_copy"@,
            ),
            r matches Err(e) ==> (e matches InstanceError::NameExists(n) && n@ == entry_of(
                old(self)@,
                uuid@,
            ).name + "_copy"@),
    {
        match self.position_of(&uuid) {
            None => Ok(()),
            Some(i) => {
                proof {
                    let j = uuid_index(self@, uuid@);
                    assert(0 <= j < self@.len() && self@[j].uuid == uuid@);
                    assert(j == i as int);
                }
                let derived = self.entries[i].name.clone().concat("_copy");
                if self.check_if_name_exists(&derived) {
                    Err(InstanceError::NameExists(derived))
                } else {
                    Ok(())
                }
            },
        }
    }

    /// Routes a command to the identified instance: the payload to deliver
    /// on its control channel is the command followed by one line
    /// terminator. An unknown identifier is refused; so is a known instance
    /// whose channel is not active, since nothing could deliver the payload.
    pub fn send_command(&self, uuid: String, command: String) -> (r: Result<
        String,
        InstanceError,
    >)
        requires
            self.wf(),
        ensures
            r is Ok <==> has_uuid(self@, uuid@) && entry_of(self@, uuid@).channel_active,
            r matches Ok(payload) ==> payload@ == command@ + "\n"@,
            !has_uuid(self@, uuid@) ==> (r matches Err(e) && e == InstanceError::NotFound(
                Operation::SendCommand,
            )),
            has_uuid(self@, uuid@) && !entry_of(self@, uuid@).channel_active ==> (r matches Err(e)
                && e is DeliveryFailed),
    {
        match self.position_of(&uuid) {
            None => Err(InstanceError::NotFound(Operation::SendCommand)),
            Some(i) => {
                proof {
                    let j = uuid_index(self@, uuid@);
                    assert(0 <= j < self@.len() && self@[j].uuid == uuid@);
                    assert(j == i as int);
                }
                if self.entries[i].channel_active {
                    Ok(command.concat("\n"))
                } else {
                    Err(InstanceError::DeliveryFailed)
                }
            },
        }
    }

    /// Resolves a start request: the instance must exist before its own
    /// start operation can be delegated to. The orchestrator only routes;
    /// the process state lives with the instance itself.
    pub fn start_instance(&self, uuid: &String) -> (r: Result<(), InstanceError>)
        ensures
            r is Ok <==> has_uuid(self@, uuid@),
            r matches Err(e) ==> e == InstanceError::NotFound(Operation::Start),
    {
        match self.position_of(uuid) {
            None => Err(InstanceError::NotFound(Operation::Start)),
            Some(_) => Ok(()),
        }
    }

    /// Resolves a stop request: the instance must exist before its own stop
    /// operation can be delegated to.
    pub fn stop_instance(&self, uuid: &String) -> (r: Result<(), InstanceError>)
        ensures
            r is Ok <==> has_uuid(self@, uuid@),
            r matches Err(e) ==> e == InstanceError::NotFound(Operation::Stop),
    {
        match self.position_of(uuid) {
            None => Err(InstanceError::NotFound(Operation::Stop)),
            Some(_) => Ok(()),
        }
    }

    /// Records whether the identified instance's control channel is active:
    /// the runner reports the channel coming up after a successful start and
    /// going down after a stop or a delivery failure. Nothing else about the
    /// instance changes.
    pub fn set_channel_active(&mut self, uuid: &String, active: bool) -> (r: Result<
        (),
        InstanceError,
    >)
        requires
            old(self).wf(),
        ensures
            final(self).wf(),
            final(self).root() == old(self).root(),
            final(self).ports() == old(self).ports(),
            r is Ok <==> has_uuid(old(self)@, uuid@),
            r matches Err(e) ==> final(self)@ == old(self)@ && e == InstanceError::NotFound(
                Operation::ChannelUpdate,
            ),
            r is Ok ==> final(self)@ == old(self)@.update(
                uuid_index(old(self)@, uuid@),
                EntryModel { channel_active: active, ..entry_of(old(self)@, uuid@) },
            ),
            r is Ok ==> has_uuid(final(self)@, uuid@) && entry_of(final(self)@, uuid@)
                == (EntryModel { channel_active: active, ..entry_of(old(self)@, uuid@) }),
    {
        match self.position_of(uuid) {
            None => Err(InstanceError::NotFound(Operation::ChannelUpdate)),
            Some(i) => {
                proof {
                    let j = uuid_index(self@, uuid@);
                    assert(0 <= j < self@.len() && self@[j].uuid == uuid@);
                    assert(j == i as int);
                }
                let ghost pre = self@;
                self.entries[i].channel_active = active;
                proof {
                    assert(self@ =~= pre.update(
                        i as int,
                        EntryModel { channel_active: active, ..pre[i as int] },
                    ));
                    assert forall|k: int, l: int|
                        0 <= k < self@.len() && 0 <= l < self@.len() && k != l implies (self@[k].uuid
                        != self@[l].uuid && self@[k].name != self@[l].name) by {
                        assert(pre[k].uuid != pre[l].uuid);
                    }
                    assert(self@[i as int].uuid == uuid@);
                    let l = uuid_index(self@, uuid@);
                    assert(0 <= l < self@.len() && self@[l].uuid == uuid@);
                    assert(l == i as int);
                }
                Ok(())
            },
        }
    }

    /// Whether an instance with the given identifier is currently
    /// registered.
    pub fn contains_instance(&self, uuid: &String) -> (r: bool)
        ensures
            r == has_uuid(self@, uuid@),
    {
        self.position_of(uuid).is_some()
    }

    /// How many instances are currently registered.
    pub fn instance_count(&self) -> (r: usize)
        ensures
            r == self@.len(),
    {
        self.entries.len()
    }
}

/// Two creation requests whose names sanitize to the same value can never
/// both register, however their plans interleave: registration succeeds
/// exactly when the plan's name is absent from the registry, and the moment
/// one of them registers, the shared name is present for the other.
pub proof fn lemma_registered_name_excludes(pre: Seq<EntryModel>, e: EntryModel, name: Seq<char>)
    requires
        e.name == name,
    ensures
        has_name(pre.push(e), name),
{
    assert(pre.push(e)[pre.len() as int] == e);
}

/// Successive successful registrations return distinct identifiers: a
/// registration succeeds only on an identifier absent from the registry, and
/// it leaves that identifier present for every later one.
pub proof fn lemma_registered_identifiers_distinct(
    pre: Seq<EntryModel>,
    e1: EntryModel,
    e2: EntryModel,
)
    requires
        !has_uuid(pre.push(e1), e2.uuid),
    ensures
        e1.uuid != e2.uuid,
{
    assert(pre.push(e1)[pre.len() as int] == e1);
}

} // verus!
