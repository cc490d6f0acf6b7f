//! One frame of the host's loop, in the order that keeps the machine and
//! its two outside parties apart: the key is written before the batch of
//! instructions runs, and the screen is drawn after it has run, so the
//! display never shows a frame half updated.

use vstd::prelude::*;
use crate::cpu::{restarted, steps, well_formed, Machine, CPU};
use crate::keyboard::KBR_ADDR;
use crate::memory::store;
use crate::screen::{painted, render, sprite_pixels, sprite_size, SCREEN_H, SCREEN_W};
use olc_pixel_game_engine::Sprite;

verus! {

/// The machine as a frame's batch finds it: the key code stands in the
/// keyboard register, unless the machine was restarted, which clears it
/// with the rest of the RAM.
pub open spec fn frame_start(m: Machine, key: u16, restart: bool) -> Machine {
    let keyed = Machine { ram: store(m.ram, KBR_ADDR as u16, key), ..m };
    if restart {
        restarted(keyed)
    } else {
        keyed
    }
}

/// Runs one frame: writes `key` to the keyboard register, restarts the
/// machine if `restart` is set, executes `count` instructions and draws the
/// screen buffer on `screen`. Unless the machine is restarted, the cycle
/// counter must have room for the batch.
pub fn frame(cpu: &mut CPU, screen: &mut Sprite, key: u16, restart: bool, count: u32)
    requires
        !restart ==> old(cpu).cc + count <= u128::MAX,
    ensures
        final(cpu)@ == steps(frame_start(old(cpu)@, key, restart), count as nat),
        well_formed(old(cpu)@) ==> well_formed(final(cpu)@),
        sprite_size(*final(screen)) == sprite_size(*old(screen)),
        sprite_pixels(*final(screen)) == painted(
            sprite_pixels(*old(screen)),
            sprite_size(*old(screen)),
            final(cpu)@.ram,
            SCREEN_W * SCREEN_H,
        ),
{
    cpu.ram.write_u16(KBR_ADDR as u16, key);
    if restart {
        cpu.reset();
    }
    cpu.run(count);
    render(&cpu.ram, screen);
}

} // verus!
