//! The generated runtime entities.
//!
//! A characteristic exposes the BlueZ GATT characteristic surface:
//! the `UUID`, `Flags`, `Service` and `Value` properties, the hooks
//! its capability set selected, and the private notify-emission hook.
//! A service exposes the `UUID`, `Primary` and `Characteristics`
//! properties.  The user's own read and write logic stays outside:
//! each dispatching hook takes that logic's result and surfaces it
//! only when the matching capability is present.

use vstd::prelude::*;

use crate::caps::CapabilitySet;
use crate::caps::GenError;
use crate::caps::caps_of;
use crate::caps::flags_valid;
use crate::caps::select_capabilities;
use crate::gatt_characteristic::GattCharacteristicArgs;
use crate::gatt_service::GattServiceArgs;
use crate::path::opt_str_view;
use crate::path::resolve_path;
use crate::path::resolved_path;
use crate::util::str_views;

verus! {

/// A hook dispatch failure: the method is absent from the
/// characteristic's interface because its flag was not declared.
#[derive(Debug, Clone, PartialEq, Eq, Structural)]
pub enum HookError {
    NotSupported,
}

/// A request to emit a property-changed signal for the value
/// property of the object published at `path`.
#[derive(Debug, PartialEq, Eq)]
pub struct SignalEmission {
    pub path: String,
}

/// A generated characteristic: the declared arguments, the selected
/// capability set, and the framework bookkeeping fields populated
/// during registration.
#[derive(Debug, PartialEq, Eq)]
pub struct Characteristic {
    /// The declared UUID.
    pub uuid: String,
    /// The declared flags.
    pub flags: Vec<String>,
    /// The hooks selected from the flags.
    pub caps: CapabilitySet,
    /// The declaring type's name, used for path derivation.
    pub entity_name: String,
    /// The declared path override.
    pub path_override: Option<String>,
    /// The declared owning-service designation; not consulted by the
    /// registration logic.
    pub service_override: Option<String>,
    /// The computed object path, populated during registration.
    pub path: Option<String>,
    /// The owning service's path, populated during registration.
    pub service_path: Option<String>,
    /// Whether the object holds a bus handle, i.e. has registered.
    pub registered: bool,
    /// The current value payload, mutated by the notify hook.
    pub notification_message: Vec<u8>,
}

impl Characteristic {
    /// The capability set matches the flags, and a registered
    /// characteristic knows its own and its service's path.
    pub open spec fn wf(&self) -> bool {
        &&& flags_valid(str_views(self.flags@))
        &&& self.caps == caps_of(str_views(self.flags@))
        &&& self.registered ==> self.path is Some && self.service_path is Some
    }

    /// The path this characteristic resolves to under a parent path.
    pub open spec fn spec_path(&self, parent: Seq<char>) -> Seq<char> {
        resolved_path(opt_str_view(self.path_override), parent, self.entity_name@)
    }

    /// `c` is this characteristic configured for registration under
    /// the service published at `sp`.
    pub open spec fn spec_registered_at(&self, c: Characteristic, sp: Seq<char>) -> bool {
        &&& c.uuid == self.uuid
        &&& c.flags == self.flags
        &&& c.caps == self.caps
        &&& c.entity_name == self.entity_name
        &&& c.path_override == self.path_override
        &&& c.service_override == self.service_override
        &&& c.notification_message == self.notification_message
        &&& c.registered
        &&& c.path matches Some(p) && p@ == self.spec_path(sp)
        &&& c.service_path matches Some(q) && q@ == sp
    }

    /// The `UUID` property.
    pub fn get_uuid(&self) -> (r: &String)
        ensures
            r == self.uuid,
    {
        &self.uuid
    }

    /// The `Flags` property.
    pub fn get_flags(&self) -> (r: &Vec<String>)
        ensures
            r == self.flags,
    {
        &self.flags
    }

    /// The `Service` property: the owning service's path, present
    /// once registration has recorded it.
    pub fn get_service(&self) -> (r: &Option<String>)
        ensures
            r == self.service_path,
    {
        &self.service_path
    }

    /// The `Value` property: the current payload.
    pub fn get_value(&self) -> (r: &Vec<u8>)
        ensures
            r == self.notification_message,
    {
        &self.notification_message
    }

    /// The path this characteristic is published under, relative to
    /// its owning service's path.
    pub fn get_path(&self, parent: &str) -> (r: String)
        ensures
            r@ == self.spec_path(parent@),
    {
        resolve_path(&self.path_override, parent, self.entity_name.as_str())
    }

    /// Configures the characteristic for registration under the
    /// service published at `service_path`: computes its own path,
    /// records the owning service's path, and attaches the bus
    /// handle.  The caller must then publish the returned object.
    pub fn register_at(self, service_path: &str) -> (c: Characteristic)
        ensures
            self.spec_registered_at(c, service_path@),
    {
        let path = self.get_path(service_path);
        Characteristic {
            path: Some(path),
            service_path: Some(service_path.to_owned()),
            registered: true,
            ..self
        }
    }

    /// The read hook: present exactly when the `read` capability was
    /// selected; it surfaces the user-supplied read logic's result.
    pub fn read_value(&self, user_result: Result<Vec<u8>, HookError>) -> (r: Result<
        Vec<u8>,
        HookError,
    >)
        ensures
            self.caps.has_read ==> r == user_result,
            !self.caps.has_read ==> r == Result::<Vec<u8>, HookError>::Err(HookError::NotSupported),
    {
        if self.caps.has_read {
            user_result
        } else {
            Err(HookError::NotSupported)
        }
    }

    /// The write hook: present exactly when the `write` capability
    /// was selected; it surfaces the user-supplied write logic's
    /// result.  The written payload and its options mapping pass
    /// through to that logic unread.
    pub fn write_value(&self, user_result: Result<(), HookError>) -> (r: Result<(), HookError>)
        ensures
            self.caps.has_write ==> r == user_result,
            !self.caps.has_write ==> r == Result::<(), HookError>::Err(HookError::NotSupported),
    {
        if self.caps.has_write {
            user_result
        } else {
            Err(HookError::NotSupported)
        }
    }

    /// The start-notify hook: present exactly when the `notify`
    /// capability was selected, and then succeeds unconditionally;
    /// subscriber fan-out is the bus collaborator's concern.
    pub fn start_notify(&self) -> (r: Result<(), HookError>)
        ensures
            self.caps.has_notify ==> r == Result::<(), HookError>::Ok(()),
            !self.caps.has_notify ==> r == Result::<(), HookError>::Err(HookError::NotSupported),
    {
        if self.caps.has_notify {
            Ok(())
        } else {
            Err(HookError::NotSupported)
        }
    }

    /// The stop-notify hook: present exactly when the `notify`
    /// capability was selected, and then succeeds unconditionally.
    pub fn stop_notify(&self) -> (r: Result<(), HookError>)
        ensures
            self.caps.has_notify ==> r == Result::<(), HookError>::Ok(()),
            !self.caps.has_notify ==> r == Result::<(), HookError>::Err(HookError::NotSupported),
    {
        if self.caps.has_notify {
            Ok(())
        } else {
            Err(HookError::NotSupported)
        }
    }

    /// The private notify-emission hook: once registration has
    /// completed, stores the new payload as the current value and
    /// requests exactly one property-changed signal on the object's
    /// own path.  Before registration it is a silent no-op: no error,
    /// no emission, and the notification is simply dropped.
    pub fn notify(&mut self, message: Vec<u8>) -> (emit: Option<SignalEmission>)
        requires
            old(self).wf(),
        ensures
            final(self).wf(),
            old(self).registered ==> final(self).notification_message == message,
            !old(self).registered ==> final(self).notification_message == old(
                self,
            ).notification_message,
            final(self).uuid == old(self).uuid,
            final(self).flags == old(self).flags,
            final(self).caps == old(self).caps,
            final(self).entity_name == old(self).entity_name,
            final(self).path_override == old(self).path_override,
            final(self).service_override == old(self).service_override,
            final(self).path == old(self).path,
            final(self).service_path == old(self).service_path,
            final(self).registered == old(self).registered,
            old(self).registered ==> (emit matches Some(sig) && old(self).path matches Some(p)
                && sig.path == p),
            !old(self).registered ==> emit is None,
    {
        if self.registered {
            self.notification_message = message;
            match &self.path {
                Some(p) => Some(SignalEmission { path: p.clone() }),
                None => {
                    proof {
                        assert(false);
                    }
                    None
                },
            }
        } else {
            None
        }
    }
}

/// A generated service: the declared arguments and the framework
/// bookkeeping fields populated during registration.
#[derive(Debug, PartialEq, Eq)]
pub struct Service {
    /// The declared UUID.
    pub uuid: String,
    /// Whether the service is primary.
    pub primary: bool,
    /// The declaring type's name, used for path derivation.
    pub entity_name: String,
    /// The declared path override.
    pub path_override: Option<String>,
    /// The declared characteristics, in declaration order; ownership
    /// of each transfers to the bus collaborator upon publication.
    pub characteristics: Vec<Characteristic>,
    /// The read-only projection of the characteristics' computed
    /// paths, populated during registration.
    pub characteristic_paths: Vec<String>,
    /// The computed object path, populated during registration.
    pub path: Option<String>,
    /// Whether the object holds a bus handle, i.e. has registered.
    pub registered: bool,
}

impl Service {
    /// Every declared characteristic is well formed.
    pub open spec fn wf(&self) -> bool {
        forall|i: int|
            0 <= i < self.characteristics@.len() ==> (#[trigger] self.characteristics@[i]).wf()
    }

    /// The path this service resolves to under a base path.
    pub open spec fn spec_path(&self, base: Seq<char>) -> Seq<char> {
        resolved_path(opt_str_view(self.path_override), base, self.entity_name@)
    }

    /// The path this service is published under, relative to the
    /// application's base path.
    pub fn get_path(&self, base: &str) -> (r: String)
        ensures
            r@ == self.spec_path(base@),
    {
        resolve_path(&self.path_override, base, self.entity_name.as_str())
    }

    /// The declared UUID.
    pub fn get_uuid(&self) -> (r: String)
        ensures
            r@ == self.uuid@,
    {
        self.uuid.clone()
    }

    /// The `Primary` property.
    pub fn get_primary(&self) -> (r: bool)
        ensures
            r == self.primary,
    {
        self.primary
    }

    /// The `Characteristics` property: the paths of the registered
    /// characteristics, in declaration order.
    pub fn get_characteristics(&self) -> (r: &Vec<String>)
        ensures
            r == self.characteristic_paths,
    {
        &self.characteristic_paths
    }

    /// Appends a characteristic to the service, after those already
    /// declared.
    pub fn add_characteristic(&mut self, c: Characteristic)
        ensures
            final(self).characteristics@ == old(self).characteristics@.push(c),
            final(self).uuid == old(self).uuid,
            final(self).primary == old(self).primary,
            final(self).entity_name == old(self).entity_name,
            final(self).path_override == old(self).path_override,
            final(self).characteristic_paths == old(self).characteristic_paths,
            final(self).path == old(self).path,
            final(self).registered == old(self).registered,
    {
        self.characteristics.push(c);
    }
}

/// The flag views a characteristic's arguments declare: the declared
/// list, or the empty default.
pub open spec fn args_flag_views(a: GattCharacteristicArgs) -> Seq<Seq<char>> {
    match a.flags {
        Some(l) => str_views(l@),
        None => Seq::empty(),
    }
}

/// The factory for characteristics: consumes validated arguments and
/// the declaring type's name, selects the capability set from the
/// flags, and produces an unregistered characteristic.  Generation
/// aborts on an invalid flag.
pub fn gatt_characteristic(args: GattCharacteristicArgs, entity_name: String) -> (r: Result<
    Characteristic,
    GenError,
>)
    ensures
        r is Ok <==> flags_valid(args_flag_views(args)),
        r matches Ok(c) ==> {
            &&& c.wf()
            &&& c.uuid == args.uuid
            &&& str_views(c.flags@) == args_flag_views(args)
            &&& c.caps == caps_of(args_flag_views(args))
            &&& c.entity_name == entity_name
            &&& c.path_override == args.path
            &&& c.service_override == args.service
            &&& c.path is None
            &&& c.service_path is None
            &&& !c.registered
            &&& c.notification_message@ == Seq::<u8>::empty()
        },
        r matches Err(e) ==> (exists|i: int|
            0 <= i < args_flag_views(args).len() && crate::caps::classify_flag(
                #[trigger] args_flag_views(args)[i],
            ) == crate::caps::FlagClass::Invalid && (e matches GenError::InvalidCharacteristicFlag(
                f,
            ) && f@ == args_flag_views(args)[i])),
{
    let GattCharacteristicArgs { uuid, flags, service, path } = args;
    let flag_list: Vec<String> = match flags {
        Some(l) => l,
        None => Vec::new(),
    };
    proof {
        assert(str_views(Seq::<String>::empty()) =~= Seq::<Seq<char>>::empty());
    }
    let caps = match select_capabilities(&flag_list) {
        Ok(c) => c,
        Err(e) => {
            proof {
                let fs = str_views(flag_list@);
                assert forall|t: int| 0 <= t < flag_list@.len() implies #[trigger] fs[t]
                    == flag_list@[t]@ by {}
                assert(args_flag_views(args) == fs);
                let i = choose|i: int|
                    0 <= i < flag_list@.len() && crate::caps::classify_flag(
                        #[trigger] flag_list@[i]@,
                    ) == crate::caps::FlagClass::Invalid && (forall|j: int|
                        0 <= j < i ==> crate::caps::classify_flag(#[trigger] flag_list@[j]@)
                            != crate::caps::FlagClass::Invalid) && (e
                        matches GenError::InvalidCharacteristicFlag(f) && f@ == flag_list@[i]@);
                assert(crate::caps::classify_flag(args_flag_views(args)[i])
                    == crate::caps::FlagClass::Invalid);
            }
            return Err(e);
        },
    };
    Ok(
        Characteristic {
            uuid,
            flags: flag_list,
            caps,
            entity_name,
            path_override: path,
            service_override: service,
            path: None,
            service_path: None,
            registered: false,
            notification_message: Vec::new(),
        },
    )
}

/// The factory for services: consumes validated arguments and the
/// declaring type's name and produces an unregistered service with no
/// characteristics; absent `primary` defaults to true.
pub fn gatt_service(args: GattServiceArgs, entity_name: String) -> (s: Service)
    ensures
        s.wf(),
        s.uuid == args.uuid,
        s.primary == (match args.primary {
            Some(b) => b,
            None => true,
        }),
        s.entity_name == entity_name,
        s.path_override == args.path,
        s.characteristics@ == Seq::<Characteristic>::empty(),
        s.characteristic_paths@ == Seq::<String>::empty(),
        s.path is None,
        !s.registered,
{
    let GattServiceArgs { uuid, path, primary } = args;
    let primary_value = match primary {
        Some(b) => b,
        None => true,
    };
    Service {
        uuid,
        primary: primary_value,
        entity_name,
        path_override: path,
        characteristics: Vec::new(),
        characteristic_paths: Vec::new(),
        path: None,
        registered: false,
    }
}

} // verus!
