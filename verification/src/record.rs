//! Data model: the VM record, its addresses and type, and its lifecycle state.

use vstd::prelude::*;

verus! {

/// Whether a VM is a system service or a user application.
#[derive(Clone, Copy, PartialEq, Eq, Structural, Debug)]
pub enum SystemAppType {
    System,
    App,
}

/// Whether a VM runs until stopped or exits on its own after one run.
#[derive(Clone, Copy, PartialEq, Eq, Structural, Debug)]
pub enum RunType {
    LongRun,
    OneShot,
}

/// The immutable classification of a VM, fixed at registration.
#[derive(Clone, Copy, PartialEq, Eq, Structural, Debug)]
pub struct VmType {
    pub system_app: SystemAppType,
    pub run_type: RunType,
}

/// The lifecycle state of a registered VM.
///
/// `Starting` and `Stopping` are transient markers held while a driver call
/// is in flight. `Unregistered` is terminal: it only ever appears as the
/// target of an unregistration, upon which the record is removed rather
/// than stored.
#[derive(Clone, Copy, PartialEq, Eq, Structural, Debug)]
pub enum VmState {
    Registered,
    Starting,
    Running,
    Connected,
    Stopping,
    Stopped,
    Unregistered,
}

/// The addresses assigned to a VM at registration, unique across live records.
#[derive(Debug)]
pub struct Addresses {
    pub ip: String,
    pub vsock: String,
}

/// The ghost image of [`Addresses`].
pub ghost struct AddressesModel {
    pub ip: Seq<char>,
    pub vsock: Seq<char>,
}

impl View for Addresses {
    type V = AddressesModel;

    open spec fn view(&self) -> AddressesModel {
        AddressesModel { ip: self.ip@, vsock: self.vsock@ }
    }
}

impl Addresses {
    /// Returns a copy whose fields equal this one's.
    pub fn duplicate(&self) -> (r: Addresses)
        ensures
            r@ == self@,
    {
        Addresses { ip: self.ip.clone(), vsock: self.vsock.clone() }
    }
}

/// What a client submits to register a VM: everything but the lifecycle
/// fields, which the registry assigns itself.
#[derive(Debug)]
pub struct VmDescriptor {
    pub name: String,
    pub vm_type: VmType,
    pub addresses: Addresses,
    pub xdg_run: Option<String>,
    pub mime_type: Option<String>,
}

/// The ghost image of [`VmDescriptor`].
pub ghost struct DescriptorModel {
    pub name: Seq<char>,
    pub vm_type: VmType,
    pub addresses: AddressesModel,
    pub xdg_run: Option<Seq<char>>,
    pub mime_type: Option<Seq<char>>,
}

impl View for VmDescriptor {
    type V = DescriptorModel;

    open spec fn view(&self) -> DescriptorModel {
        DescriptorModel {
            name: self.name@,
            vm_type: self.vm_type,
            addresses: self.addresses@,
            xdg_run: self.xdg_run.deep_view(),
            mime_type: self.mime_type.deep_view(),
        }
    }
}

/// A VM record: the persisted description and lifecycle state of one named
/// VM. `name`, `vm_type` and `addresses` are immutable after registration;
/// `version` increases by one with every persisted mutation.
#[derive(Debug)]
pub struct VmRecord {
    pub name: String,
    pub vm_type: VmType,
    pub addresses: Addresses,
    pub xdg_run: Option<String>,
    pub mime_type: Option<String>,
    pub state: VmState,
    pub version: u64,
}

/// The ghost image of [`VmRecord`].
pub ghost struct RecordModel {
    pub name: Seq<char>,
    pub vm_type: VmType,
    pub addresses: AddressesModel,
    pub xdg_run: Option<Seq<char>>,
    pub mime_type: Option<Seq<char>>,
    pub state: VmState,
    pub version: u64,
}

impl View for VmRecord {
    type V = RecordModel;

    open spec fn view(&self) -> RecordModel {
        RecordModel {
            name: self.name@,
            vm_type: self.vm_type,
            addresses: self.addresses@,
            xdg_run: self.xdg_run.deep_view(),
            mime_type: self.mime_type.deep_view(),
            state: self.state,
            version: self.version,
        }
    }
}

impl DeepView for VmRecord {
    type V = RecordModel;

    open spec fn deep_view(&self) -> RecordModel {
        self.view()
    }
}

/// Returns a copy of an optional string with an equal view.
pub fn duplicate_opt_string(s: &Option<String>) -> (r: Option<String>)
    ensures
        r.deep_view() == s.deep_view(),
{
    match s {
        Some(v) => Some(v.clone()),
        None => None,
    }
}

impl VmRecord {
    /// Returns a copy whose fields equal this record's.
    pub fn duplicate(&self) -> (r: VmRecord)
        ensures
            r@ == self@,
    {
        VmRecord {
            name: self.name.clone(),
            vm_type: self.vm_type,
            addresses: self.addresses.duplicate(),
            xdg_run: duplicate_opt_string(&self.xdg_run),
            mime_type: duplicate_opt_string(&self.mime_type),
            state: self.state,
            version: self.version,
        }
    }
}

/// What `connect` hands back: where the established connection reaches
/// the VM.
#[derive(Debug)]
pub struct ConnectionInfo {
    pub name: String,
    pub ip: String,
    pub vsock: String,
}

/// The ghost image of [`ConnectionInfo`].
pub ghost struct ConnectionInfoModel {
    pub name: Seq<char>,
    pub ip: Seq<char>,
    pub vsock: Seq<char>,
}

impl View for ConnectionInfo {
    type V = ConnectionInfoModel;

    open spec fn view(&self) -> ConnectionInfoModel {
        ConnectionInfoModel { name: self.name@, ip: self.ip@, vsock: self.vsock@ }
    }
}

} // verus!
