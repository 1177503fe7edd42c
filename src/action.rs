//! The XKB key action: an eight-byte envelope whose first byte selects one of
//! 21 kinds. Bytes that a kind does not use are padding, written as zeros.

use vstd::prelude::*;

verus! {

/// The size of every action on the wire.
pub const ACTION_SIZE: usize = 8;

/// An action that does nothing; it has no fields.
#[derive(Clone, Copy, Debug, PartialEq, Eq, Structural, Hash)]
pub struct SaNoAction {}

/// The seven bytes of a `SaNoAction` after the type byte.
pub open spec fn sa_no_action_bytes(a: SaNoAction) -> Seq<u8> {
    seq![0u8, 0u8, 0u8, 0u8, 0u8, 0u8, 0u8]
}

/// The `SaNoAction` whose bytes follow the type byte in `b`.
pub open spec fn sa_no_action_of(b: Seq<u8>) -> SaNoAction {
    SaNoAction {}
}

impl SaNoAction {
    /// The seven bytes after the type byte.
    fn write(&self) -> (r: [u8; 7])
        ensures
            r@ == sa_no_action_bytes(*self),
    {
        let r = [0, 0, 0, 0, 0, 0, 0];
        assert(r@ =~= sa_no_action_bytes(*self));
        r
    }

    /// Reads the fields that follow the type byte.
    fn read(b: &[u8]) -> (r: Self)
        requires
            b@.len() >= ACTION_SIZE,
        ensures
            r == sa_no_action_of(b@),
    {
        SaNoAction {}
    }
}
/// The fields of an action that sets, latches or locks modifiers.
#[derive(Clone, Copy, Debug, PartialEq, Eq, Structural, Hash)]
pub struct SaModAction {
    pub flags: u8,
    pub mask: u8,
    pub real_mods: u8,
    pub vmods_high: u8,
    pub vmods_low: u8,
}

/// The seven bytes of a `SaModAction` after the type byte.
pub open spec fn sa_mod_action_bytes(a: SaModAction) -> Seq<u8> {
    seq![a.flags, a.mask, a.real_mods, a.vmods_high, a.vmods_low, 0u8, 0u8]
}

/// The `SaModAction` whose bytes follow the type byte in `b`.
pub open spec fn sa_mod_action_of(b: Seq<u8>) -> SaModAction {
    SaModAction { flags: b[1], mask: b[2], real_mods: b[3], vmods_high: b[4], vmods_low: b[5] }
}

impl SaModAction {
    /// The seven bytes after the type byte.
    fn write(&self) -> (r: [u8; 7])
        ensures
            r@ == sa_mod_action_bytes(*self),
    {
        let r = [self.flags, self.mask, self.real_mods, self.vmods_high, self.vmods_low, 0, 0];
        assert(r@ =~= sa_mod_action_bytes(*self));
        r
    }

    /// Reads the fields that follow the type byte.
    fn read(b: &[u8]) -> (r: Self)
        requires
            b@.len() >= ACTION_SIZE,
        ensures
            r == sa_mod_action_of(b@),
    {
        SaModAction { flags: b[1], mask: b[2], real_mods: b[3], vmods_high: b[4], vmods_low: b[5] }
    }
}
/// The fields of an action that sets, latches or locks the group.
#[derive(Clone, Copy, Debug, PartialEq, Eq, Structural, Hash)]
pub struct SaGroupAction {
    pub flags: u8,
    pub group: u8,
}

/// The seven bytes of a `SaGroupAction` after the type byte.
pub open spec fn sa_group_action_bytes(a: SaGroupAction) -> Seq<u8> {
    seq![a.flags, a.group, 0u8, 0u8, 0u8, 0u8, 0u8]
}

/// The `SaGroupAction` whose bytes follow the type byte in `b`.
pub open spec fn sa_group_action_of(b: Seq<u8>) -> SaGroupAction {
    SaGroupAction { flags: b[1], group: b[2] }
}

impl SaGroupAction {
    /// The seven bytes after the type byte.
    fn write(&self) -> (r: [u8; 7])
        ensures
            r@ == sa_group_action_bytes(*self),
    {
        let r = [self.flags, self.group, 0, 0, 0, 0, 0];
        assert(r@ =~= sa_group_action_bytes(*self));
        r
    }

    /// Reads the fields that follow the type byte.
    fn read(b: &[u8]) -> (r: Self)
        requires
            b@.len() >= ACTION_SIZE,
        ensures
            r == sa_group_action_of(b@),
    {
        SaGroupAction { flags: b[1], group: b[2] }
    }
}
/// The fields of an action that moves the pointer.
#[derive(Clone, Copy, Debug, PartialEq, Eq, Structural, Hash)]
pub struct SaMovePtr {
    pub flags: u8,
    pub x_high: u8,
    pub x_low: u8,
    pub y_high: u8,
    pub y_low: u8,
}

/// The seven bytes of a `SaMovePtr` after the type byte.
pub open spec fn sa_move_ptr_bytes(a: SaMovePtr) -> Seq<u8> {
    seq![a.flags, a.x_high, a.x_low, a.y_high, a.y_low, 0u8, 0u8]
}

/// The `SaMovePtr` whose bytes follow the type byte in `b`.
pub open spec fn sa_move_ptr_of(b: Seq<u8>) -> SaMovePtr {
    SaMovePtr { flags: b[1], x_high: b[2], x_low: b[3], y_high: b[4], y_low: b[5] }
}

impl SaMovePtr {
    /// The seven bytes after the type byte.
    fn write(&self) -> (r: [u8; 7])
        ensures
            r@ == sa_move_ptr_bytes(*self),
    {
        let r = [self.flags, self.x_high, self.x_low, self.y_high, self.y_low, 0, 0];
        assert(r@ =~= sa_move_ptr_bytes(*self));
        r
    }

    /// Reads the fields that follow the type byte.
    fn read(b: &[u8]) -> (r: Self)
        requires
            b@.len() >= ACTION_SIZE,
        ensures
            r == sa_move_ptr_of(b@),
    {
        SaMovePtr { flags: b[1], x_high: b[2], x_low: b[3], y_high: b[4], y_low: b[5] }
    }
}
/// The fields of an action that presses a pointer button.
#[derive(Clone, Copy, Debug, PartialEq, Eq, Structural, Hash)]
pub struct SaPtrBtn {
    pub flags: u8,
    pub count: u8,
    pub button: u8,
}

/// The seven bytes of a `SaPtrBtn` after the type byte.
pub open spec fn sa_ptr_btn_bytes(a: SaPtrBtn) -> Seq<u8> {
    seq![a.flags, a.count, a.button, 0u8, 0u8, 0u8, 0u8]
}

/// The `SaPtrBtn` whose bytes follow the type byte in `b`.
pub open spec fn sa_ptr_btn_of(b: Seq<u8>) -> SaPtrBtn {
    SaPtrBtn { flags: b[1], count: b[2], button: b[3] }
}

impl SaPtrBtn {
    /// The seven bytes after the type byte.
    fn write(&self) -> (r: [u8; 7])
        ensures
            r@ == sa_ptr_btn_bytes(*self),
    {
        let r = [self.flags, self.count, self.button, 0, 0, 0, 0];
        assert(r@ =~= sa_ptr_btn_bytes(*self));
        r
    }

    /// Reads the fields that follow the type byte.
    fn read(b: &[u8]) -> (r: Self)
        requires
            b@.len() >= ACTION_SIZE,
        ensures
            r == sa_ptr_btn_of(b@),
    {
        SaPtrBtn { flags: b[1], count: b[2], button: b[3] }
    }
}
/// The fields of an action that locks a pointer button.
#[derive(Clone, Copy, Debug, PartialEq, Eq, Structural, Hash)]
pub struct SaLockPtrBtn {
    pub flags: u8,
    pub button: u8,
}

/// The seven bytes of a `SaLockPtrBtn` after the type byte.
pub open spec fn sa_lock_ptr_btn_bytes(a: SaLockPtrBtn) -> Seq<u8> {
    seq![a.flags, 0u8, a.button, 0u8, 0u8, 0u8, 0u8]
}

/// The `SaLockPtrBtn` whose bytes follow the type byte in `b`.
pub open spec fn sa_lock_ptr_btn_of(b: Seq<u8>) -> SaLockPtrBtn {
    SaLockPtrBtn { flags: b[1], button: b[3] }
}

impl SaLockPtrBtn {
    /// The seven bytes after the type byte.
    fn write(&self) -> (r: [u8; 7])
        ensures
            r@ == sa_lock_ptr_btn_bytes(*self),
    {
        let r = [self.flags, 0, self.button, 0, 0, 0, 0];
        assert(r@ =~= sa_lock_ptr_btn_bytes(*self));
        r
    }

    /// Reads the fields that follow the type byte.
    fn read(b: &[u8]) -> (r: Self)
        requires
            b@.len() >= ACTION_SIZE,
        ensures
            r == sa_lock_ptr_btn_of(b@),
    {
        SaLockPtrBtn { flags: b[1], button: b[3] }
    }
}
/// The fields of an action that sets the default pointer button.
#[derive(Clone, Copy, Debug, PartialEq, Eq, Structural, Hash)]
pub struct SaSetPtrDflt {
    pub flags: u8,
    pub affect: u8,
    pub value: u8,
}

/// The seven bytes of a `SaSetPtrDflt` after the type byte.
pub open spec fn sa_set_ptr_dflt_bytes(a: SaSetPtrDflt) -> Seq<u8> {
    seq![a.flags, a.affect, a.value, 0u8, 0u8, 0u8, 0u8]
}

/// The `SaSetPtrDflt` whose bytes follow the type byte in `b`.
pub open spec fn sa_set_ptr_dflt_of(b: Seq<u8>) -> SaSetPtrDflt {
    SaSetPtrDflt { flags: b[1], affect: b[2], value: b[3] }
}

impl SaSetPtrDflt {
    /// The seven bytes after the type byte.
    fn write(&self) -> (r: [u8; 7])
        ensures
            r@ == sa_set_ptr_dflt_bytes(*self),
    {
        let r = [self.flags, self.affect, self.value, 0, 0, 0, 0];
        assert(r@ =~= sa_set_ptr_dflt_bytes(*self));
        r
    }

    /// Reads the fields that follow the type byte.
    fn read(b: &[u8]) -> (r: Self)
        requires
            b@.len() >= ACTION_SIZE,
        ensures
            r == sa_set_ptr_dflt_of(b@),
    {
        SaSetPtrDflt { flags: b[1], affect: b[2], value: b[3] }
    }
}
/// The fields of an action that locks modifiers or the group in isolation.
#[derive(Clone, Copy, Debug, PartialEq, Eq, Structural, Hash)]
pub struct SaIsoLock {
    pub flags: u8,
    pub mask: u8,
    pub real_mods: u8,
    pub group: u8,
    pub affect: u8,
    pub vmods_high: u8,
    pub vmods_low: u8,
}

/// The seven bytes of a `SaIsoLock` after the type byte.
pub open spec fn sa_iso_lock_bytes(a: SaIsoLock) -> Seq<u8> {
    seq![a.flags, a.mask, a.real_mods, a.group, a.affect, a.vmods_high, a.vmods_low]
}

/// The `SaIsoLock` whose bytes follow the type byte in `b`.
pub open spec fn sa_iso_lock_of(b: Seq<u8>) -> SaIsoLock {
    SaIsoLock { flags: b[1], mask: b[2], real_mods: b[3], group: b[4], affect: b[5], vmods_high: b[6], vmods_low: b[7] }
}

impl SaIsoLock {
    /// The seven bytes after the type byte.
    fn write(&self) -> (r: [u8; 7])
        ensures
            r@ == sa_iso_lock_bytes(*self),
    {
        let r = [self.flags, self.mask, self.real_mods, self.group, self.affect, self.vmods_high, self.vmods_low];
        assert(r@ =~= sa_iso_lock_bytes(*self));
        r
    }

    /// Reads the fields that follow the type byte.
    fn read(b: &[u8]) -> (r: Self)
        requires
            b@.len() >= ACTION_SIZE,
        ensures
            r == sa_iso_lock_of(b@),
    {
        SaIsoLock { flags: b[1], mask: b[2], real_mods: b[3], group: b[4], affect: b[5], vmods_high: b[6], vmods_low: b[7] }
    }
}
/// An action that ends the server; it has no fields.
#[derive(Clone, Copy, Debug, PartialEq, Eq, Structural, Hash)]
pub struct SaTerminate {}

/// The seven bytes of a `SaTerminate` after the type byte.
pub open spec fn sa_terminate_bytes(a: SaTerminate) -> Seq<u8> {
    seq![0u8, 0u8, 0u8, 0u8, 0u8, 0u8, 0u8]
}

/// The `SaTerminate` whose bytes follow the type byte in `b`.
pub open spec fn sa_terminate_of(b: Seq<u8>) -> SaTerminate {
    SaTerminate {}
}

impl SaTerminate {
    /// The seven bytes after the type byte.
    fn write(&self) -> (r: [u8; 7])
        ensures
            r@ == sa_terminate_bytes(*self),
    {
        let r = [0, 0, 0, 0, 0, 0, 0];
        assert(r@ =~= sa_terminate_bytes(*self));
        r
    }

    /// Reads the fields that follow the type byte.
    fn read(b: &[u8]) -> (r: Self)
        requires
            b@.len() >= ACTION_SIZE,
        ensures
            r == sa_terminate_of(b@),
    {
        SaTerminate {}
    }
}
/// The fields of an action that switches screens.
#[derive(Clone, Copy, Debug, PartialEq, Eq, Structural, Hash)]
pub struct SaSwitchScreen {
    pub flags: u8,
    pub new_screen: u8,
}

/// The seven bytes of a `SaSwitchScreen` after the type byte.
pub open spec fn sa_switch_screen_bytes(a: SaSwitchScreen) -> Seq<u8> {
    seq![a.flags, a.new_screen, 0u8, 0u8, 0u8, 0u8, 0u8]
}

/// The `SaSwitchScreen` whose bytes follow the type byte in `b`.
pub open spec fn sa_switch_screen_of(b: Seq<u8>) -> SaSwitchScreen {
    SaSwitchScreen { flags: b[1], new_screen: b[2] }
}

impl SaSwitchScreen {
    /// The seven bytes after the type byte.
    fn write(&self) -> (r: [u8; 7])
        ensures
            r@ == sa_switch_screen_bytes(*self),
    {
        let r = [self.flags, self.new_screen, 0, 0, 0, 0, 0];
        assert(r@ =~= sa_switch_screen_bytes(*self));
        r
    }

    /// Reads the fields that follow the type byte.
    fn read(b: &[u8]) -> (r: Self)
        requires
            b@.len() >= ACTION_SIZE,
        ensures
            r == sa_switch_screen_of(b@),
    {
        SaSwitchScreen { flags: b[1], new_screen: b[2] }
    }
}
/// The fields of an action that sets or locks boolean controls.
#[derive(Clone, Copy, Debug, PartialEq, Eq, Structural, Hash)]
pub struct SaControlsAction {
    pub bool_ctrls_high: u8,
    pub bool_ctrls_low: u8,
}

/// The seven bytes of a `SaControlsAction` after the type byte.
pub open spec fn sa_controls_action_bytes(a: SaControlsAction) -> Seq<u8> {
    seq![0u8, 0u8, 0u8, a.bool_ctrls_high, a.bool_ctrls_low, 0u8, 0u8]
}

/// The `SaControlsAction` whose bytes follow the type byte in `b`.
pub open spec fn sa_controls_action_of(b: Seq<u8>) -> SaControlsAction {
    SaControlsAction { bool_ctrls_high: b[4], bool_ctrls_low: b[5] }
}

impl SaControlsAction {
    /// The seven bytes after the type byte.
    fn write(&self) -> (r: [u8; 7])
        ensures
            r@ == sa_controls_action_bytes(*self),
    {
        let r = [0, 0, 0, self.bool_ctrls_high, self.bool_ctrls_low, 0, 0];
        assert(r@ =~= sa_controls_action_bytes(*self));
        r
    }

    /// Reads the fields that follow the type byte.
    fn read(b: &[u8]) -> (r: Self)
        requires
            b@.len() >= ACTION_SIZE,
        ensures
            r == sa_controls_action_of(b@),
    {
        SaControlsAction { bool_ctrls_high: b[4], bool_ctrls_low: b[5] }
    }
}
/// The fields of an action that sends a message.
#[derive(Clone, Copy, Debug, PartialEq, Eq, Structural, Hash)]
pub struct SaActionMessage {
    pub flags: u8,
    pub message0: u8,
    pub message1: u8,
    pub message2: u8,
    pub message3: u8,
    pub message4: u8,
    pub message5: u8,
}

/// The seven bytes of a `SaActionMessage` after the type byte.
pub open spec fn sa_action_message_bytes(a: SaActionMessage) -> Seq<u8> {
    seq![a.flags, a.message0, a.message1, a.message2, a.message3, a.message4, a.message5]
}

/// The `SaActionMessage` whose bytes follow the type byte in `b`.
pub open spec fn sa_action_message_of(b: Seq<u8>) -> SaActionMessage {
    SaActionMessage { flags: b[1], message0: b[2], message1: b[3], message2: b[4], message3: b[5], message4: b[6], message5: b[7] }
}

impl SaActionMessage {
    /// The seven bytes after the type byte.
    fn write(&self) -> (r: [u8; 7])
        ensures
            r@ == sa_action_message_bytes(*self),
    {
        let r = [self.flags, self.message0, self.message1, self.message2, self.message3, self.message4, self.message5];
        assert(r@ =~= sa_action_message_bytes(*self));
        r
    }

    /// Reads the fields that follow the type byte.
    fn read(b: &[u8]) -> (r: Self)
        requires
            b@.len() >= ACTION_SIZE,
        ensures
            r == sa_action_message_of(b@),
    {
        SaActionMessage { flags: b[1], message0: b[2], message1: b[3], message2: b[4], message3: b[5], message4: b[6], message5: b[7] }
    }
}
/// The fields of an action that redirects the key.
#[derive(Clone, Copy, Debug, PartialEq, Eq, Structural, Hash)]
pub struct SaRedirectKey {
    pub newkey: u8,
    pub mask: u8,
    pub real_modifiers: u8,
    pub vmods_mask_high: u8,
    pub vmods_mask_low: u8,
    pub vmods_high: u8,
    pub vmods_low: u8,
}

/// The seven bytes of a `SaRedirectKey` after the type byte.
pub open spec fn sa_redirect_key_bytes(a: SaRedirectKey) -> Seq<u8> {
    seq![a.newkey, a.mask, a.real_modifiers, a.vmods_mask_high, a.vmods_mask_low, a.vmods_high, a.vmods_low]
}

/// The `SaRedirectKey` whose bytes follow the type byte in `b`.
pub open spec fn sa_redirect_key_of(b: Seq<u8>) -> SaRedirectKey {
    SaRedirectKey { newkey: b[1], mask: b[2], real_modifiers: b[3], vmods_mask_high: b[4], vmods_mask_low: b[5], vmods_high: b[6], vmods_low: b[7] }
}

impl SaRedirectKey {
    /// The seven bytes after the type byte.
    fn write(&self) -> (r: [u8; 7])
        ensures
            r@ == sa_redirect_key_bytes(*self),
    {
        let r = [self.newkey, self.mask, self.real_modifiers, self.vmods_mask_high, self.vmods_mask_low, self.vmods_high, self.vmods_low];
        assert(r@ =~= sa_redirect_key_bytes(*self));
        r
    }

    /// Reads the fields that follow the type byte.
    fn read(b: &[u8]) -> (r: Self)
        requires
            b@.len() >= ACTION_SIZE,
        ensures
            r == sa_redirect_key_of(b@),
    {
        SaRedirectKey { newkey: b[1], mask: b[2], real_modifiers: b[3], vmods_mask_high: b[4], vmods_mask_low: b[5], vmods_high: b[6], vmods_low: b[7] }
    }
}
/// The fields of an action that presses a device button.
#[derive(Clone, Copy, Debug, PartialEq, Eq, Structural, Hash)]
pub struct SaDeviceBtn {
    pub flags: u8,
    pub count: u8,
    pub button: u8,
    pub device: u8,
}

/// The seven bytes of a `SaDeviceBtn` after the type byte.
pub open spec fn sa_device_btn_bytes(a: SaDeviceBtn) -> Seq<u8> {
    seq![a.flags, a.count, a.button, a.device, 0u8, 0u8, 0u8]
}

/// The `SaDeviceBtn` whose bytes follow the type byte in `b`.
pub open spec fn sa_device_btn_of(b: Seq<u8>) -> SaDeviceBtn {
    SaDeviceBtn { flags: b[1], count: b[2], button: b[3], device: b[4] }
}

impl SaDeviceBtn {
    /// The seven bytes after the type byte.
    fn write(&self) -> (r: [u8; 7])
        ensures
            r@ == sa_device_btn_bytes(*self),
    {
        let r = [self.flags, self.count, self.button, self.device, 0, 0, 0];
        assert(r@ =~= sa_device_btn_bytes(*self));
        r
    }

    /// Reads the fields that follow the type byte.
    fn read(b: &[u8]) -> (r: Self)
        requires
            b@.len() >= ACTION_SIZE,
        ensures
            r == sa_device_btn_of(b@),
    {
        SaDeviceBtn { flags: b[1], count: b[2], button: b[3], device: b[4] }
    }
}
/// The fields of an action that locks a device button.
#[derive(Clone, Copy, Debug, PartialEq, Eq, Structural, Hash)]
pub struct SaLockDeviceBtn {
    pub flags: u8,
    pub button: u8,
    pub device: u8,
}

/// The seven bytes of a `SaLockDeviceBtn` after the type byte.
pub open spec fn sa_lock_device_btn_bytes(a: SaLockDeviceBtn) -> Seq<u8> {
    seq![a.flags, 0u8, a.button, a.device, 0u8, 0u8, 0u8]
}

/// The `SaLockDeviceBtn` whose bytes follow the type byte in `b`.
pub open spec fn sa_lock_device_btn_of(b: Seq<u8>) -> SaLockDeviceBtn {
    SaLockDeviceBtn { flags: b[1], button: b[3], device: b[4] }
}

impl SaLockDeviceBtn {
    /// The seven bytes after the type byte.
    fn write(&self) -> (r: [u8; 7])
        ensures
            r@ == sa_lock_device_btn_bytes(*self),
    {
        let r = [self.flags, 0, self.button, self.device, 0, 0, 0];
        assert(r@ =~= sa_lock_device_btn_bytes(*self));
        r
    }

    /// Reads the fields that follow the type byte.
    fn read(b: &[u8]) -> (r: Self)
        requires
            b@.len() >= ACTION_SIZE,
        ensures
            r == sa_lock_device_btn_of(b@),
    {
        SaLockDeviceBtn { flags: b[1], button: b[3], device: b[4] }
    }
}
/// The fields of an action that moves device valuators.
#[derive(Clone, Copy, Debug, PartialEq, Eq, Structural, Hash)]
pub struct SaDeviceValuator {
    pub device: u8,
    pub val1what: u8,
    pub val1index: u8,
    pub val1value: u8,
    pub val2what: u8,
    pub val2index: u8,
    pub val2value: u8,
}

/// The seven bytes of a `SaDeviceValuator` after the type byte.
pub open spec fn sa_device_valuator_bytes(a: SaDeviceValuator) -> Seq<u8> {
    seq![a.device, a.val1what, a.val1index, a.val1value, a.val2what, a.val2index, a.val2value]
}

/// The `SaDeviceValuator` whose bytes follow the type byte in `b`.
pub open spec fn sa_device_valuator_of(b: Seq<u8>) -> SaDeviceValuator {
    SaDeviceValuator { device: b[1], val1what: b[2], val1index: b[3], val1value: b[4], val2what: b[5], val2index: b[6], val2value: b[7] }
}

impl SaDeviceValuator {
    /// The seven bytes after the type byte.
    fn write(&self) -> (r: [u8; 7])
        ensures
            r@ == sa_device_valuator_bytes(*self),
    {
        let r = [self.device, self.val1what, self.val1index, self.val1value, self.val2what, self.val2index, self.val2value];
        assert(r@ =~= sa_device_valuator_bytes(*self));
        r
    }

    /// Reads the fields that follow the type byte.
    fn read(b: &[u8]) -> (r: Self)
        requires
            b@.len() >= ACTION_SIZE,
        ensures
            r == sa_device_valuator_of(b@),
    {
        SaDeviceValuator { device: b[1], val1what: b[2], val1index: b[3], val1value: b[4], val2what: b[5], val2index: b[6], val2value: b[7] }
    }
}
/// An action generated by XKB.
#[derive(Clone, Copy, Debug, PartialEq, Eq, Structural, Hash)]
pub enum Action {
    NoAction(SaNoAction),
    SetMods(SaModAction),
    LatchMods(SaModAction),
    LockMods(SaModAction),
    SetGroup(SaGroupAction),
    LatchGroup(SaGroupAction),
    LockGroup(SaGroupAction),
    MovePtr(SaMovePtr),
    PtrBtn(SaPtrBtn),
    LockPtrBtn(SaLockPtrBtn),
    SetPtrDflt(SaSetPtrDflt),
    IsoLock(SaIsoLock),
    Terminate(SaTerminate),
    SwitchScreen(SaSwitchScreen),
    SetControls(SaControlsAction),
    LockControls(SaControlsAction),
    ActionMessage(SaActionMessage),
    RedirectKey(SaRedirectKey),
    DeviceBtn(SaDeviceBtn),
    LockDeviceBtn(SaLockDeviceBtn),
    DeviceValuator(SaDeviceValuator),
}

/// The type byte of each kind of action.
pub open spec fn action_type(a: Action) -> u8 {
    match a {
        Action::NoAction(_) => 0,
        Action::SetMods(_) => 1,
        Action::LatchMods(_) => 2,
        Action::LockMods(_) => 3,
        Action::SetGroup(_) => 4,
        Action::LatchGroup(_) => 5,
        Action::LockGroup(_) => 6,
        Action::MovePtr(_) => 7,
        Action::PtrBtn(_) => 8,
        Action::LockPtrBtn(_) => 9,
        Action::SetPtrDflt(_) => 10,
        Action::IsoLock(_) => 11,
        Action::Terminate(_) => 12,
        Action::SwitchScreen(_) => 13,
        Action::SetControls(_) => 14,
        Action::LockControls(_) => 15,
        Action::ActionMessage(_) => 16,
        Action::RedirectKey(_) => 17,
        Action::DeviceBtn(_) => 18,
        Action::LockDeviceBtn(_) => 19,
        Action::DeviceValuator(_) => 20,
    }
}

/// The eight bytes of an action on the wire.
pub open spec fn action_bytes(a: Action) -> Seq<u8> {
    match a {
        Action::NoAction(x) => seq![0u8] + sa_no_action_bytes(x),
        Action::SetMods(x) => seq![1u8] + sa_mod_action_bytes(x),
        Action::LatchMods(x) => seq![2u8] + sa_mod_action_bytes(x),
        Action::LockMods(x) => seq![3u8] + sa_mod_action_bytes(x),
        Action::SetGroup(x) => seq![4u8] + sa_group_action_bytes(x),
        Action::LatchGroup(x) => seq![5u8] + sa_group_action_bytes(x),
        Action::LockGroup(x) => seq![6u8] + sa_group_action_bytes(x),
        Action::MovePtr(x) => seq![7u8] + sa_move_ptr_bytes(x),
        Action::PtrBtn(x) => seq![8u8] + sa_ptr_btn_bytes(x),
        Action::LockPtrBtn(x) => seq![9u8] + sa_lock_ptr_btn_bytes(x),
        Action::SetPtrDflt(x) => seq![10u8] + sa_set_ptr_dflt_bytes(x),
        Action::IsoLock(x) => seq![11u8] + sa_iso_lock_bytes(x),
        Action::Terminate(x) => seq![12u8] + sa_terminate_bytes(x),
        Action::SwitchScreen(x) => seq![13u8] + sa_switch_screen_bytes(x),
        Action::SetControls(x) => seq![14u8] + sa_controls_action_bytes(x),
        Action::LockControls(x) => seq![15u8] + sa_controls_action_bytes(x),
        Action::ActionMessage(x) => seq![16u8] + sa_action_message_bytes(x),
        Action::RedirectKey(x) => seq![17u8] + sa_redirect_key_bytes(x),
        Action::DeviceBtn(x) => seq![18u8] + sa_device_btn_bytes(x),
        Action::LockDeviceBtn(x) => seq![19u8] + sa_lock_device_btn_bytes(x),
        Action::DeviceValuator(x) => seq![20u8] + sa_device_valuator_bytes(x),
    }
}

/// The action that eight bytes hold, or `None` for an unknown type byte or
/// fewer than eight bytes.
pub open spec fn parse_action(b: Seq<u8>) -> Option<Action> {
    if b.len() < 8 {
        None
    } else {
        match b[0] {
            0 => Some(Action::NoAction(sa_no_action_of(b))),
            1 => Some(Action::SetMods(sa_mod_action_of(b))),
            2 => Some(Action::LatchMods(sa_mod_action_of(b))),
            3 => Some(Action::LockMods(sa_mod_action_of(b))),
            4 => Some(Action::SetGroup(sa_group_action_of(b))),
            5 => Some(Action::LatchGroup(sa_group_action_of(b))),
            6 => Some(Action::LockGroup(sa_group_action_of(b))),
            7 => Some(Action::MovePtr(sa_move_ptr_of(b))),
            8 => Some(Action::PtrBtn(sa_ptr_btn_of(b))),
            9 => Some(Action::LockPtrBtn(sa_lock_ptr_btn_of(b))),
            10 => Some(Action::SetPtrDflt(sa_set_ptr_dflt_of(b))),
            11 => Some(Action::IsoLock(sa_iso_lock_of(b))),
            12 => Some(Action::Terminate(sa_terminate_of(b))),
            13 => Some(Action::SwitchScreen(sa_switch_screen_of(b))),
            14 => Some(Action::SetControls(sa_controls_action_of(b))),
            15 => Some(Action::LockControls(sa_controls_action_of(b))),
            16 => Some(Action::ActionMessage(sa_action_message_of(b))),
            17 => Some(Action::RedirectKey(sa_redirect_key_of(b))),
            18 => Some(Action::DeviceBtn(sa_device_btn_of(b))),
            19 => Some(Action::LockDeviceBtn(sa_lock_device_btn_of(b))),
            20 => Some(Action::DeviceValuator(sa_device_valuator_of(b))),
            _ => None,
        }
    }
}

/// Decoding an encoded action gives the action back, and takes all eight bytes.
pub proof fn lemma_action_round_trip(a: Action)
    ensures
        action_bytes(a).len() == ACTION_SIZE,
        action_bytes(a)[0] == action_type(a),
        parse_action(action_bytes(a)) == Some(a),
{
}

/// Where decoding succeeds, encoding its result gives back the bytes read with
/// the padding bytes set to zero.
pub proof fn lemma_action_bytes_round_trip(b: Seq<u8>)
    requires
        parse_action(b) is Some,
    ensures
        action_bytes(parse_action(b)->Some_0).len() == ACTION_SIZE,
        action_bytes(parse_action(b)->Some_0)[0] == b[0],
        forall|i: int|
            0 <= i < ACTION_SIZE ==> #[trigger] action_bytes(parse_action(b)->Some_0)[i] == b[i]
                || action_bytes(parse_action(b)->Some_0)[i] == 0,
{
}

impl Default for Action {
    /// The action that does nothing.
    fn default() -> (r: Action)
        ensures
            r == Action::NoAction(SaNoAction {}),
    {
        Action::NoAction(SaNoAction {})
    }
}

impl Action {
    /// The size of an action on the wire.
    pub fn size(&self) -> (r: usize)
        ensures
            r == ACTION_SIZE,
    {
        ACTION_SIZE
    }

    /// Writes the action into the first eight bytes of `bytes`; returns 8.
    pub fn as_bytes(&self, bytes: &mut [u8]) -> (r: usize)
        requires
            old(bytes)@.len() >= ACTION_SIZE,
        ensures
            r == ACTION_SIZE,
            final(bytes)@.len() == old(bytes)@.len(),
            final(bytes)@.take(8) == action_bytes(*self),
            final(bytes)@.skip(8) == old(bytes)@.skip(8),
    {
        let (ty, b) = match self {
            Action::NoAction(x) => (0u8, x.write()),
            Action::SetMods(x) => (1u8, x.write()),
            Action::LatchMods(x) => (2u8, x.write()),
            Action::LockMods(x) => (3u8, x.write()),
            Action::SetGroup(x) => (4u8, x.write()),
            Action::LatchGroup(x) => (5u8, x.write()),
            Action::LockGroup(x) => (6u8, x.write()),
            Action::MovePtr(x) => (7u8, x.write()),
            Action::PtrBtn(x) => (8u8, x.write()),
            Action::LockPtrBtn(x) => (9u8, x.write()),
            Action::SetPtrDflt(x) => (10u8, x.write()),
            Action::IsoLock(x) => (11u8, x.write()),
            Action::Terminate(x) => (12u8, x.write()),
            Action::SwitchScreen(x) => (13u8, x.write()),
            Action::SetControls(x) => (14u8, x.write()),
            Action::LockControls(x) => (15u8, x.write()),
            Action::ActionMessage(x) => (16u8, x.write()),
            Action::RedirectKey(x) => (17u8, x.write()),
            Action::DeviceBtn(x) => (18u8, x.write()),
            Action::LockDeviceBtn(x) => (19u8, x.write()),
            Action::DeviceValuator(x) => (20u8, x.write()),
        };
        assert(action_bytes(*self) =~= seq![ty] + b@);
        bytes[0] = ty;
        let mut i: usize = 0;
        while i < 7
            invariant
                i <= 7,
                b@.len() == 7,
                bytes@.len() == old(bytes)@.len(),
                old(bytes)@.len() >= ACTION_SIZE,
                bytes@[0] == ty,
                forall|j: int| 0 <= j < i ==> bytes@[j + 1] == b@[j],
                forall|j: int| 8 <= j < old(bytes)@.len() ==> bytes@[j] == old(bytes)@[j],
            decreases 7 - i,
        {
            bytes[i + 1] = b[i];
            i = i + 1;
        }
        assert(bytes@.take(8) =~= action_bytes(*self));
        assert(bytes@.skip(8) =~= old(bytes)@.skip(8));
        ACTION_SIZE
    }

    /// Reads an action from the front of `bytes`: its type byte selects the
    /// kind. Fewer than eight bytes, or an unknown type, give `None`.
    pub fn from_bytes(bytes: &[u8]) -> (r: Option<(Action, usize)>)
        ensures
            r == match parse_action(bytes@) {
                Some(a) => Some((a, ACTION_SIZE)),
                None => None::<(Action, usize)>,
            },
    {
        if bytes.len() < ACTION_SIZE {
            return None;
        }
        let this = match bytes[0] {
            0 => Action::NoAction(SaNoAction::read(bytes)),
            1 => Action::SetMods(SaModAction::read(bytes)),
            2 => Action::LatchMods(SaModAction::read(bytes)),
            3 => Action::LockMods(SaModAction::read(bytes)),
            4 => Action::SetGroup(SaGroupAction::read(bytes)),
            5 => Action::LatchGroup(SaGroupAction::read(bytes)),
            6 => Action::LockGroup(SaGroupAction::read(bytes)),
            7 => Action::MovePtr(SaMovePtr::read(bytes)),
            8 => Action::PtrBtn(SaPtrBtn::read(bytes)),
            9 => Action::LockPtrBtn(SaLockPtrBtn::read(bytes)),
            10 => Action::SetPtrDflt(SaSetPtrDflt::read(bytes)),
            11 => Action::IsoLock(SaIsoLock::read(bytes)),
            12 => Action::Terminate(SaTerminate::read(bytes)),
            13 => Action::SwitchScreen(SaSwitchScreen::read(bytes)),
            14 => Action::SetControls(SaControlsAction::read(bytes)),
            15 => Action::LockControls(SaControlsAction::read(bytes)),
            16 => Action::ActionMessage(SaActionMessage::read(bytes)),
            17 => Action::RedirectKey(SaRedirectKey::read(bytes)),
            18 => Action::DeviceBtn(SaDeviceBtn::read(bytes)),
            19 => Action::LockDeviceBtn(SaLockDeviceBtn::read(bytes)),
            20 => Action::DeviceValuator(SaDeviceValuator::read(bytes)),
            _ => {
                return None;
            },
        };
        Some((this, ACTION_SIZE))
    }
}

} // verus!
