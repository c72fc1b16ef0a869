//! The control switches of the cabinet, latched on input port 1.

use vstd::prelude::*;
use crate::machine::{port_in_latch, Machine, PortView};
use crate::state8080::State8080;

verus! {

/// The input port on which the control switches are read.
pub const CONTROLS_PORT: u8 = 1;

/// A control switch of the cabinet.
#[derive(Clone, Copy, Debug, PartialEq, Eq, Structural)]
pub enum Button {
    Coin,
    Start,
    Shoot,
    Left,
    Right,
}

/// The bit of input port 1 that a switch drives.
pub open spec fn button_mask(button: Button) -> u8 {
    match button {
        Button::Coin => 0x01,
        Button::Start => 0x04,
        Button::Shoot => 0x10,
        Button::Left => 0x20,
        Button::Right => 0x40,
    }
}

/// The bit of input port 1 that a switch drives.
pub fn mask_of(button: Button) -> (mask: u8)
    ensures
        mask == button_mask(button),
{
    match button {
        Button::Coin => 0x01,
        Button::Start => 0x04,
        Button::Shoot => 0x10,
        Button::Left => 0x20,
        Button::Right => 0x40,
    }
}

/// The machine with `value` latched on input port 1.
pub open spec fn with_controls(m: Machine, value: u8) -> Machine {
    Machine { port: PortView { inputs: m.port.inputs.insert(CONTROLS_PORT, value), ..m.port }, ..m }
}

/// A switch is pressed: its bit is set on input port 1.
pub fn key_down(state: &mut State8080, button: Button)
    ensures
        final(state)@ == with_controls(
            old(state)@,
            port_in_latch(old(state)@.port, CONTROLS_PORT) | button_mask(button),
        ),
{
    state.set_input_bits(CONTROLS_PORT, mask_of(button));
}

/// A switch is released: its bit is cleared on input port 1.
pub fn key_up(state: &mut State8080, button: Button)
    ensures
        final(state)@ == with_controls(
            old(state)@,
            port_in_latch(old(state)@.port, CONTROLS_PORT) & !button_mask(button),
        ),
{
    state.clear_input_bits(CONTROLS_PORT, mask_of(button));
}

/// The machine after each of `buttons` is pressed, first to last.
pub open spec fn press_all(m: Machine, buttons: Seq<Button>) -> Machine
    decreases buttons.len(),
{
    if buttons.len() == 0 {
        m
    } else {
        let before = press_all(m, buttons.drop_last());
        with_controls(
            before,
            port_in_latch(before.port, CONTROLS_PORT) | button_mask(buttons.last()),
        )
    }
}

/// The machine after each of `buttons` is released, first to last.
pub open spec fn release_all(m: Machine, buttons: Seq<Button>) -> Machine
    decreases buttons.len(),
{
    if buttons.len() == 0 {
        m
    } else {
        let before = release_all(m, buttons.drop_last());
        with_controls(
            before,
            port_in_latch(before.port, CONTROLS_PORT) & !button_mask(buttons.last()),
        )
    }
}

/// Latches the key edges of one frame: every switch that went down is
/// pressed, then every switch that came up is released, so that a switch
/// that did both within the frame ends released.
pub fn latch_edges(state: &mut State8080, pressed: &[Button], released: &[Button])
    ensures
        final(state)@ == release_all(press_all(old(state)@, pressed@), released@),
{
    let mut i: usize = 0;
    while i < pressed.len()
        invariant
            i <= pressed@.len(),
            state@ == press_all(old(state)@, pressed@.subrange(0, i as int)),
        decreases pressed@.len() - i,
    {
        assert(pressed@.subrange(0, i + 1).drop_last() =~= pressed@.subrange(0, i as int));
        key_down(state, pressed[i]);
        i = i + 1;
    }
    assert(pressed@.subrange(0, i as int) =~= pressed@);
    let ghost down = state@;
    let mut j: usize = 0;
    while j < released.len()
        invariant
            j <= released@.len(),
            state@ == release_all(down, released@.subrange(0, j as int)),
        decreases released@.len() - j,
    {
        assert(released@.subrange(0, j + 1).drop_last() =~= released@.subrange(0, j as int));
        key_up(state, released[j]);
        j = j + 1;
    }
    assert(released@.subrange(0, j as int) =~= released@);
}

} // verus!
