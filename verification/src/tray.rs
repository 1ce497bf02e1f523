//! The tray's switches: listening speed, startup residence, freeing the
//! GPU, quitting. Menu items are told apart by their ids.

use crate::hotkey::SPEAK_KEY;
use crate::text::{str_eq, strip_prefix};
use vstd::prelude::*;

verus! {

/// Quits the app.
pub const QUIT_ID: &'static str = "quit";

/// Puts the engine to sleep.
pub const FREE_VRAM_ID: &'static str = "free-vram";

/// Toggles starting with the OS.
pub const AUTOSTART_ID: &'static str = "autostart";

/// Prefix of the speed items' ids; the rest is the speed as written.
pub const SPEED_ID_PREFIX: &'static str = "speed:";

/// What a menu click asks for.
#[derive(Clone, Debug, PartialEq, Eq)]
pub enum MenuCommand {
    Quit,
    FreeVram,
    ToggleAutostart,
    /// A speed pick, carrying the speed's text from the item id.
    Speed(String),
    /// An id this menu does not know.
    Ignore,
}

/// The command for the menu item `id`.
pub open spec fn spec_menu_command(id: Seq<char>) -> MenuCommand {
    if id == QUIT_ID@ {
        MenuCommand::Quit
    } else if id == FREE_VRAM_ID@ {
        MenuCommand::FreeVram
    } else if id == AUTOSTART_ID@ {
        MenuCommand::ToggleAutostart
    } else if SPEED_ID_PREFIX@.is_prefix_of(id) {
        MenuCommand::Speed(arbitrary())
    } else {
        MenuCommand::Ignore
    }
}

/// Tells a menu click apart by its item id.
pub fn menu_command(id: &str) -> (cmd: MenuCommand)
    ensures
        !(cmd is Speed) ==> cmd == spec_menu_command(id@),
        spec_menu_command(id@) is Speed <==> cmd is Speed,
        cmd matches MenuCommand::Speed(s) ==> id@ == SPEED_ID_PREFIX@ + s@,
{
    if str_eq(id, QUIT_ID) {
        MenuCommand::Quit
    } else if str_eq(id, FREE_VRAM_ID) {
        MenuCommand::FreeVram
    } else if str_eq(id, AUTOSTART_ID) {
        MenuCommand::ToggleAutostart
    } else {
        match strip_prefix(id, SPEED_ID_PREFIX) {
            Some(rest) => {
                proof {
                    assert(SPEED_ID_PREFIX@.is_prefix_of(id@)) by {
                        assert(id@.subrange(0, SPEED_ID_PREFIX@.len() as int) =~= SPEED_ID_PREFIX@);
                    }
                }
                MenuCommand::Speed(String::from_str(rest))
            },
            None => MenuCommand::Ignore,
        }
    }
}

/// The id of the speed item whose speed reads `speed_text`.
pub fn speed_item_id(speed_text: &str) -> (id: String)
    ensures
        id@ == SPEED_ID_PREFIX@ + speed_text@,
{
    let mut id = String::from_str(SPEED_ID_PREFIX);
    id.append(speed_text);
    id
}

/// A speed item's click gives back exactly the speed it was made with:
/// its id is read as a speed pick, and the only text that the pick can
/// carry (the id less the prefix) is the text the id was made from.
pub proof fn speed_id_round_trips(speed_text: Seq<char>, carried: Seq<char>)
    requires
        SPEED_ID_PREFIX@ + speed_text == SPEED_ID_PREFIX@ + carried,
    ensures
        spec_menu_command(SPEED_ID_PREFIX@ + speed_text) is Speed,
        carried == speed_text,
{
    let id = SPEED_ID_PREFIX@ + speed_text;
    reveal_strlit("speed:");
    reveal_strlit("quit");
    reveal_strlit("free-vram");
    reveal_strlit("autostart");
    assert(id.subrange(0, 6) =~= SPEED_ID_PREFIX@);
    assert(id[0] == 's');
    assert(id != QUIT_ID@) by {
        assert(QUIT_ID@[0] == 'q');
    }
    assert(id != FREE_VRAM_ID@) by {
        assert(FREE_VRAM_ID@[0] == 'f');
    }
    assert(id != AUTOSTART_ID@) by {
        assert(AUTOSTART_ID@[0] == 'a');
    }
    assert(carried =~= id.skip(6));
    assert(speed_text =~= id.skip(6));
}

/// The tray's resting tooltip for app version `version`.
pub fn tray_tooltip(version: &str) -> (tip: String)
    ensures
        tip@ == "hearit v"@ + version@ + " — select text, press "@ + SPEAK_KEY@,
{
    let mut tip = String::from_str("hearit v");
    tip.append(version);
    tip.append(" — select text, press ");
    tip.append(SPEAK_KEY);
    tip
}

/// The startup toggle disables when startup is known to be on, and enables
/// otherwise (including when its state cannot be read).
pub fn autostart_should_disable(enabled: Option<bool>) -> (disable: bool)
    ensures
        disable == (enabled == Some(true)),
{
    match enabled {
        Some(true) => true,
        _ => false,
    }
}

} // verus!
