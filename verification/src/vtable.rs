//! Slot layouts of the foreign virtual tables.
//!
//! A foreign object is an address of a table of function slots whose order
//! and count are a platform contract: consumed tables are indexed at fixed
//! positions, and the one produced table must mirror the contract exactly,
//! reserved slots included.  One platform family places one extra reserved
//! slot immediately after the primary destructor slot; every later slot of
//! that table shifts by exactly one there.  A wrong count or order is
//! silent corruption, not a catchable error, so the layouts stand here as
//! checked data: each public slot's index is proved against its layout.

use vstd::prelude::*;

verus! {

/// The methods of the produced extension-interface table, one per slot, in
/// slot order.
#[derive(Debug, Clone, Copy, PartialEq, Eq, Structural)]
pub enum InterfaceMethod {
    GetExtensionVersion,
    OnExtensionLoad,
    OnExtensionUnload,
    OnExtensionsAllLoaded,
    OnExtensionPauseChange,
    QueryInterfaceDrop,
    NotifyInterfaceDrop,
    QueryRunning,
    IsMetamodExtension,
    GetExtensionName,
    GetExtensionUrl,
    GetExtensionTag,
    GetExtensionAuthor,
    GetExtensionVerString,
    GetExtensionDescription,
    GetExtensionDateString,
    OnCoreMapStart,
    OnDependenciesDropped,
    OnCoreMapEnd,
}

/// The slot order of the produced extension-interface table.
pub open spec fn extension_interface_layout() -> Seq<InterfaceMethod> {
    seq![
        InterfaceMethod::GetExtensionVersion,
        InterfaceMethod::OnExtensionLoad,
        InterfaceMethod::OnExtensionUnload,
        InterfaceMethod::OnExtensionsAllLoaded,
        InterfaceMethod::OnExtensionPauseChange,
        InterfaceMethod::QueryInterfaceDrop,
        InterfaceMethod::NotifyInterfaceDrop,
        InterfaceMethod::QueryRunning,
        InterfaceMethod::IsMetamodExtension,
        InterfaceMethod::GetExtensionName,
        InterfaceMethod::GetExtensionUrl,
        InterfaceMethod::GetExtensionTag,
        InterfaceMethod::GetExtensionAuthor,
        InterfaceMethod::GetExtensionVerString,
        InterfaceMethod::GetExtensionDescription,
        InterfaceMethod::GetExtensionDateString,
        InterfaceMethod::OnCoreMapStart,
        InterfaceMethod::OnDependenciesDropped,
        InterfaceMethod::OnCoreMapEnd,
    ]
}

/// Builds the produced table's slot order, exactly the layout contract.
pub fn build_extension_interface_table() -> (t: Vec<InterfaceMethod>)
    ensures
        t@ == extension_interface_layout(),
{
    let mut t: Vec<InterfaceMethod> = Vec::new();
    t.push(InterfaceMethod::GetExtensionVersion);
    t.push(InterfaceMethod::OnExtensionLoad);
    t.push(InterfaceMethod::OnExtensionUnload);
    t.push(InterfaceMethod::OnExtensionsAllLoaded);
    t.push(InterfaceMethod::OnExtensionPauseChange);
    t.push(InterfaceMethod::QueryInterfaceDrop);
    t.push(InterfaceMethod::NotifyInterfaceDrop);
    t.push(InterfaceMethod::QueryRunning);
    t.push(InterfaceMethod::IsMetamodExtension);
    t.push(InterfaceMethod::GetExtensionName);
    t.push(InterfaceMethod::GetExtensionUrl);
    t.push(InterfaceMethod::GetExtensionTag);
    t.push(InterfaceMethod::GetExtensionAuthor);
    t.push(InterfaceMethod::GetExtensionVerString);
    t.push(InterfaceMethod::GetExtensionDescription);
    t.push(InterfaceMethod::GetExtensionDateString);
    t.push(InterfaceMethod::OnCoreMapStart);
    t.push(InterfaceMethod::OnDependenciesDropped);
    t.push(InterfaceMethod::OnCoreMapEnd);
    proof {
        assert(t@ =~= extension_interface_layout());
    }
    t
}

/// Selects the method a produced slot dispatches to — a function of the
/// slot index alone.
pub fn method_for_slot(k: usize) -> (r: Option<InterfaceMethod>)
    ensures
        k < extension_interface_layout().len() ==> r == Some(
            extension_interface_layout()[k as int],
        ),
        k >= extension_interface_layout().len() ==> r is None,
{
    let t = build_extension_interface_table();
    if k < t.len() {
        Some(t[k])
    } else {
        None
    }
}

/// Dispatch through a produced slot is idempotent: the method selected at
/// index `k` is fixed by the layout, so any two selections at the same
/// index are the same method, however many times the table is invoked.
pub proof fn lemma_dispatch_deterministic(k: int, m1: InterfaceMethod, m2: InterfaceMethod)
    requires
        0 <= k < extension_interface_layout().len(),
        m1 == extension_interface_layout()[k],
        m2 == extension_interface_layout()[k],
    ensures
        m1 == m2,
{
}

/// The slots of a consumed extension table.
#[derive(Debug, Clone, Copy, PartialEq, Eq, Structural)]
pub enum ExtensionSlot {
    IsLoaded,
    GetApi,
    GetFilename,
    GetIdentity,
    Reserved,
    IsRunning,
    IsExternal,
}

/// The slot order of a consumed extension table: three reserved
/// dependency-iteration slots sit between the identity and running-state
/// slots and are kept only so the later slots land correctly.
pub open spec fn extension_layout() -> Seq<ExtensionSlot> {
    seq![
        ExtensionSlot::IsLoaded,
        ExtensionSlot::GetApi,
        ExtensionSlot::GetFilename,
        ExtensionSlot::GetIdentity,
        ExtensionSlot::Reserved,
        ExtensionSlot::Reserved,
        ExtensionSlot::Reserved,
        ExtensionSlot::IsRunning,
        ExtensionSlot::IsExternal,
    ]
}

/// Where the consumed extension table's public slots sit.
pub proof fn lemma_extension_layout()
    ensures
        extension_layout().len() == 9,
        extension_layout()[0] == ExtensionSlot::IsLoaded,
        extension_layout()[1] == ExtensionSlot::GetApi,
        extension_layout()[2] == ExtensionSlot::GetFilename,
        extension_layout()[3] == ExtensionSlot::GetIdentity,
        extension_layout()[7] == ExtensionSlot::IsRunning,
        extension_layout()[8] == ExtensionSlot::IsExternal,
{
}

/// The slots of a consumed interface table.
#[derive(Debug, Clone, Copy, PartialEq, Eq, Structural)]
pub enum InterfaceQuerySlot {
    GetInterfaceVersion,
    GetInterfaceName,
    IsVersionCompatible,
}

/// The slot order of a consumed interface table.
pub open spec fn interface_query_layout() -> Seq<InterfaceQuerySlot> {
    seq![
        InterfaceQuerySlot::GetInterfaceVersion,
        InterfaceQuerySlot::GetInterfaceName,
        InterfaceQuerySlot::IsVersionCompatible,
    ]
}

/// The slots of the consumed sharing-system table.
#[derive(Debug, Clone, Copy, PartialEq, Eq, Structural)]
pub enum ShareSysSlot {
    AddInterface,
    RequestInterface,
    AddNatives,
    CreateIdentType,
    FindIdentType,
    CreateIdentity,
    DestroyIdentType,
    DestroyIdentity,
    AddDependency,
    RegisterLibrary,
    Reserved,
    AddCapabilityProvider,
    DropCapabilityProvider,
    TestFeature,
}

/// The slot order of the consumed sharing-system table: one reserved
/// native-override slot sits between the library-registration and
/// capability slots.
pub open spec fn share_sys_layout() -> Seq<ShareSysSlot> {
    seq![
        ShareSysSlot::AddInterface,
        ShareSysSlot::RequestInterface,
        ShareSysSlot::AddNatives,
        ShareSysSlot::CreateIdentType,
        ShareSysSlot::FindIdentType,
        ShareSysSlot::CreateIdentity,
        ShareSysSlot::DestroyIdentType,
        ShareSysSlot::DestroyIdentity,
        ShareSysSlot::AddDependency,
        ShareSysSlot::RegisterLibrary,
        ShareSysSlot::Reserved,
        ShareSysSlot::AddCapabilityProvider,
        ShareSysSlot::DropCapabilityProvider,
        ShareSysSlot::TestFeature,
    ]
}

/// Where the sharing-system slots this bridge calls sit.
pub proof fn lemma_share_sys_layout()
    ensures
        share_sys_layout().len() == 14,
        share_sys_layout()[1] == ShareSysSlot::RequestInterface,
        share_sys_layout()[2] == ShareSysSlot::AddNatives,
        share_sys_layout()[10] == ShareSysSlot::Reserved,
{
}

/// The slots of the consumed plugin-context table: the three this bridge
/// calls, and the reserved ones that only preserve position.
#[derive(Debug, Clone, Copy, PartialEq, Eq, Structural)]
pub enum ContextSlot {
    Reserved,
    LocalToPhysAddr,
    LocalToString,
    ThrowNativeError,
}

/// How many destructor slots the platform family places at the front of
/// the plugin-context table: the primary one, and on one family a second
/// reserved one immediately after it.
pub open spec fn spec_destructor_slots(extra_destructor: bool) -> int {
    if extra_destructor {
        2
    } else {
        1
    }
}

/// The index of the address-translation slot for cell addresses.
pub open spec fn spec_local_to_phys_addr_slot(extra_destructor: bool) -> int {
    spec_destructor_slots(extra_destructor) + 18
}

/// The index of the address-translation slot for string addresses.
pub open spec fn spec_local_to_string_slot(extra_destructor: bool) -> int {
    spec_destructor_slots(extra_destructor) + 19
}

/// The index of the error-signaling slot.
pub open spec fn spec_throw_native_error_slot(extra_destructor: bool) -> int {
    spec_destructor_slots(extra_destructor) + 31
}

/// The slot order of the consumed plugin-context table: the destructor
/// slot (doubled on one platform family), eighteen reserved
/// virtual-machine slots, the two address-translation slots, eleven
/// reserved call-stack slots, the error-signaling slot, and twenty-three
/// reserved trailing slots.
pub open spec fn plugin_context_layout(extra_destructor: bool) -> Seq<ContextSlot> {
    Seq::new(spec_destructor_slots(extra_destructor) as nat, |i: int| ContextSlot::Reserved)
        + Seq::new(18, |i: int| ContextSlot::Reserved) + seq![
        ContextSlot::LocalToPhysAddr,
        ContextSlot::LocalToString,
    ] + Seq::new(11, |i: int| ContextSlot::Reserved) + seq![ContextSlot::ThrowNativeError]
        + Seq::new(23, |i: int| ContextSlot::Reserved)
}

/// Where the plugin-context slots this bridge calls sit, for either
/// platform family — and that every other slot is reserved.
pub proof fn lemma_plugin_context_layout(extra_destructor: bool)
    ensures
        plugin_context_layout(extra_destructor).len() == spec_destructor_slots(extra_destructor)
            + 55,
        plugin_context_layout(extra_destructor)[spec_local_to_phys_addr_slot(extra_destructor)]
            == ContextSlot::LocalToPhysAddr,
        plugin_context_layout(extra_destructor)[spec_local_to_string_slot(extra_destructor)]
            == ContextSlot::LocalToString,
        plugin_context_layout(extra_destructor)[spec_throw_native_error_slot(extra_destructor)]
            == ContextSlot::ThrowNativeError,
        forall|k: int|
            0 <= k < plugin_context_layout(extra_destructor).len() && k
                != spec_local_to_phys_addr_slot(extra_destructor) && k != spec_local_to_string_slot(
                extra_destructor,
            ) && k != spec_throw_native_error_slot(extra_destructor) ==> plugin_context_layout(
                extra_destructor,
            )[k] == ContextSlot::Reserved,
{
}

/// The platform-conditional slot: the family with the second destructor
/// slot shifts every later slot by exactly one, and nothing else changes.
pub proof fn lemma_conditional_slot_shift(k: int)
    requires
        1 <= k < plugin_context_layout(false).len(),
    ensures
        plugin_context_layout(true).len() == plugin_context_layout(false).len() + 1,
        plugin_context_layout(true)[k + 1] == plugin_context_layout(false)[k],
{
    lemma_plugin_context_layout(false);
    lemma_plugin_context_layout(true);
}

/// The index of the cell-address translation slot, for the given platform
/// family.
pub fn local_to_phys_addr_slot(extra_destructor: bool) -> (i: usize)
    ensures
        i == spec_local_to_phys_addr_slot(extra_destructor),
        plugin_context_layout(extra_destructor)[i as int] == ContextSlot::LocalToPhysAddr,
{
    proof {
        lemma_plugin_context_layout(extra_destructor);
    }
    if extra_destructor {
        20
    } else {
        19
    }
}

/// The index of the string-address translation slot, for the given
/// platform family.
pub fn local_to_string_slot(extra_destructor: bool) -> (i: usize)
    ensures
        i == spec_local_to_string_slot(extra_destructor),
        plugin_context_layout(extra_destructor)[i as int] == ContextSlot::LocalToString,
{
    proof {
        lemma_plugin_context_layout(extra_destructor);
    }
    if extra_destructor {
        21
    } else {
        20
    }
}

/// The index of the error-signaling slot, for the given platform family.
pub fn throw_native_error_slot(extra_destructor: bool) -> (i: usize)
    ensures
        i == spec_throw_native_error_slot(extra_destructor),
        plugin_context_layout(extra_destructor)[i as int] == ContextSlot::ThrowNativeError,
{
    proof {
        lemma_plugin_context_layout(extra_destructor);
    }
    if extra_destructor {
        33
    } else {
        32
    }
}

} // verus!
