//! The adapter: a synthesized object the host calls as if it were native.
//!
//! An adapter pairs a produced slot table with a delegate implementing the
//! capability traits.  Each produced slot forwards to one delegate method,
//! translating the return convention at the seam; the two conventions that
//! recur are a success flag with a bounded error buffer, and a plain value
//! with no failure channel.  Every optional callback has a default no-op
//! body, so a minimal delegate implements only what it cares about.  The
//! adapter owns its table and delegate; both are released exactly once,
//! when the adapter itself is dropped by the surrounding unload sequence.

use vstd::prelude::*;
use crate::bytestr::error_buffer_spec;
use crate::bytestr::fill_error_buffer;
use crate::handles::IExtension;
use crate::handles::IShareSys;
use crate::handles::SMInterface;
use crate::vtable::InterfaceMethod;
use crate::vtable::build_extension_interface_table;
use crate::vtable::extension_interface_layout;

verus! {

/// The version of the extension-interface contract that every adapter
/// presents to the host.
pub const EXTENSION_API_VERSION: i32 = 8;

/// The lifecycle callbacks a delegate may handle.  Every method has a
/// default no-op (or success) body.  A fallible callback describes its
/// failure as message bytes for the host's bounded error buffer.
pub trait IExtensionInterface {
    /// Called once when the host loads the extension.
    fn on_extension_load(&mut self, me: IExtension, sys: IShareSys, late: bool) -> Result<
        (),
        Vec<u8>,
    > {
        Ok(())
    }

    /// Called once when the host unloads the extension.
    fn on_extension_unload(&mut self) {
    }

    /// Called when every extension has been loaded.
    fn on_extensions_all_loaded(&mut self) {
    }

    /// Called when the extension is paused or resumed.
    fn on_extension_pause_change(&mut self, pause: bool) {
    }

    /// Called when a map starts; the entity list is an opaque foreign
    /// address.
    fn on_core_map_start(&mut self, edict_list: usize, edict_count: i32, client_max: i32) {
    }

    /// Called when a map ends.
    fn on_core_map_end(&mut self) {
    }

    /// Asked whether dropping the given interface is acceptable.
    fn query_interface_drop(&mut self, interface: SMInterface) -> bool {
        false
    }

    /// Told that the given interface is being dropped.
    fn notify_interface_drop(&mut self, interface: SMInterface) {
    }

    /// Asked whether the extension is running; a failure carries the
    /// reason.
    fn query_running(&mut self) -> Result<(), Vec<u8>> {
        Ok(())
    }

    /// Told that dependencies of the extension were dropped.
    fn on_dependencies_dropped(&mut self) {
    }
}

/// The metadata a delegate must present: the fixed texts the host reads
/// through the produced table.
pub trait IExtensionMetadata {
    fn get_extension_name(&self) -> String;

    fn get_extension_url(&self) -> String;

    fn get_extension_tag(&self) -> String;

    fn get_extension_author(&self) -> String;

    fn get_extension_ver_string(&self) -> String;

    fn get_extension_description(&self) -> String;

    fn get_extension_date_string(&self) -> String;
}

/// Translates a fallible callback's outcome into the host's return
/// convention: a success flag, and the bounded error buffer written on
/// failure (truncated to `maxlength`, terminator included).
pub fn callback_reply(outcome: Result<(), Vec<u8>>, maxlength: usize) -> (r: (bool, Vec<u8>))
    ensures
        outcome is Ok ==> r.0 == true && r.1@.len() == 0,
        outcome matches Err(m) ==> r.0 == false && r.1@ == error_buffer_spec(
            m@,
            maxlength as nat,
        ) && r.1@.len() <= maxlength,
        r.0 == false && maxlength > 0 ==> r.1@.len() >= 1 && r.1@.last() == 0u8,
{
    match outcome {
        Ok(()) => (true, Vec::new()),
        Err(m) => (false, fill_error_buffer(&m, maxlength)),
    }
}

/// The synthesized object handed to the host: a produced slot table and
/// the delegate its slots forward to.
pub struct IExtensionInterfaceAdapter<T: IExtensionInterface + IExtensionMetadata> {
    vtable: Vec<InterfaceMethod>,
    delegate: T,
}

impl<T: IExtensionInterface + IExtensionMetadata> IExtensionInterfaceAdapter<T> {
    /// The adapter's slot table.
    pub closed spec fn spec_vtable(&self) -> Seq<InterfaceMethod> {
        self.vtable@
    }

    /// The adapter's delegate.
    pub closed spec fn spec_delegate(&self) -> T {
        self.delegate
    }

    /// Well-formed: the synthesized table is exactly the produced layout
    /// contract, so every host call lands on the slot it expects.
    pub open spec fn wf(&self) -> bool {
        self.spec_vtable() == extension_interface_layout()
    }

    /// Builds an adapter for the delegate: a fresh table in the produced
    /// layout, paired with the delegate.  Two adapters built for two
    /// delegates share nothing.
    pub fn new(delegate: T) -> (a: Self)
        ensures
            a.wf(),
            a.spec_delegate() == delegate,
    {
        IExtensionInterfaceAdapter { vtable: build_extension_interface_table(), delegate }
    }

    /// The produced version slot: the contract version this adapter
    /// speaks.
    pub fn get_extension_version(&self) -> (v: i32)
        ensures
            v == EXTENSION_API_VERSION,
    {
        EXTENSION_API_VERSION
    }

    /// The produced load slot: forwards to the delegate and translates its
    /// outcome into the flag-and-buffer convention.
    pub fn on_extension_load(
        &mut self,
        me: IExtension,
        sys: IShareSys,
        maxlength: usize,
        late: bool,
    ) -> (r: (bool, Vec<u8>))
        ensures
            final(self).spec_vtable() == old(self).spec_vtable(),
            r.0 == true ==> r.1@.len() == 0,
            r.0 == false && maxlength > 0 ==> r.1@.len() >= 1 && r.1@.last() == 0u8,
            r.1@.len() <= maxlength,
    {
        let outcome = self.delegate.on_extension_load(me, sys, late);
        callback_reply(outcome, maxlength)
    }

    /// The produced unload slot.
    pub fn on_extension_unload(&mut self)
        ensures
            final(self).spec_vtable() == old(self).spec_vtable(),
    {
        self.delegate.on_extension_unload()
    }

    /// The produced all-loaded slot.
    pub fn on_extensions_all_loaded(&mut self)
        ensures
            final(self).spec_vtable() == old(self).spec_vtable(),
    {
        self.delegate.on_extensions_all_loaded()
    }

    /// The produced pause-change slot.
    pub fn on_extension_pause_change(&mut self, pause: bool)
        ensures
            final(self).spec_vtable() == old(self).spec_vtable(),
    {
        self.delegate.on_extension_pause_change(pause)
    }

    /// The produced interface-drop query slot.
    pub fn query_interface_drop(&mut self, interface: SMInterface) -> (r: bool)
        ensures
            final(self).spec_vtable() == old(self).spec_vtable(),
    {
        self.delegate.query_interface_drop(interface)
    }

    /// The produced interface-drop notification slot.
    pub fn notify_interface_drop(&mut self, interface: SMInterface)
        ensures
            final(self).spec_vtable() == old(self).spec_vtable(),
    {
        self.delegate.notify_interface_drop(interface)
    }

    /// The produced running-state slot: forwards to the delegate and
    /// translates its outcome into the flag-and-buffer convention.
    pub fn query_running(&mut self, maxlength: usize) -> (r: (bool, Vec<u8>))
        ensures
            final(self).spec_vtable() == old(self).spec_vtable(),
            r.0 == true ==> r.1@.len() == 0,
            r.0 == false && maxlength > 0 ==> r.1@.len() >= 1 && r.1@.last() == 0u8,
            r.1@.len() <= maxlength,
    {
        let outcome = self.delegate.query_running();
        callback_reply(outcome, maxlength)
    }

    /// The produced metamod query slot: this bridge never presents a
    /// metamod extension.
    pub fn is_metamod_extension(&self) -> (r: bool)
        ensures
            r == false,
    {
        false
    }

    /// The produced name slot.
    pub fn get_extension_name(&self) -> String {
        self.delegate.get_extension_name()
    }

    /// The produced URL slot.
    pub fn get_extension_url(&self) -> String {
        self.delegate.get_extension_url()
    }

    /// The produced tag slot.
    pub fn get_extension_tag(&self) -> String {
        self.delegate.get_extension_tag()
    }

    /// The produced author slot.
    pub fn get_extension_author(&self) -> String {
        self.delegate.get_extension_author()
    }

    /// The produced version-string slot.
    pub fn get_extension_ver_string(&self) -> String {
        self.delegate.get_extension_ver_string()
    }

    /// The produced description slot.
    pub fn get_extension_description(&self) -> String {
        self.delegate.get_extension_description()
    }

    /// The produced date-string slot.
    pub fn get_extension_date_string(&self) -> String {
        self.delegate.get_extension_date_string()
    }

    /// The produced map-start slot.
    pub fn on_core_map_start(&mut self, edict_list: usize, edict_count: i32, client_max: i32)
        ensures
            final(self).spec_vtable() == old(self).spec_vtable(),
    {
        self.delegate.on_core_map_start(edict_list, edict_count, client_max)
    }

    /// The produced dependencies-dropped slot.
    pub fn on_dependencies_dropped(&mut self)
        ensures
            final(self).spec_vtable() == old(self).spec_vtable(),
    {
        self.delegate.on_dependencies_dropped()
    }

    /// The produced map-end slot.
    pub fn on_core_map_end(&mut self)
        ensures
            final(self).spec_vtable() == old(self).spec_vtable(),
    {
        self.delegate.on_core_map_end()
    }
}

} // verus!
