//! Segoe Fluent Icons font characters (Windows 11): the code points of the glyphs.

use vstd::prelude::*;

verus! {

pub const WIFI: char = '\u{E701}';
pub const WIFI_OFF: char = '\u{F384}';
pub const ETHERNET: char = '\u{E839}';
pub const AIRPLANE: char = '\u{E709}';
pub const BATTERY_0: char = '\u{E850}';
pub const BATTERY_1: char = '\u{E851}';
pub const BATTERY_2: char = '\u{E852}';
pub const BATTERY_3: char = '\u{E853}';
pub const BATTERY_4: char = '\u{E854}';
pub const BATTERY_5: char = '\u{E855}';
pub const BATTERY_6: char = '\u{E856}';
pub const BATTERY_7: char = '\u{E857}';
pub const BATTERY_8: char = '\u{E858}';
pub const BATTERY_9: char = '\u{E859}';
pub const BATTERY_10: char = '\u{E83F}';
pub const BATTERY_CHARGING: char = '\u{E83E}';
pub const BATTERY_SAVER: char = '\u{E853}';
pub const VOLUME_0: char = '\u{E992}';
pub const VOLUME_1: char = '\u{E993}';
pub const VOLUME_2: char = '\u{E994}';
pub const VOLUME_3: char = '\u{E995}';
pub const VOLUME_MUTE: char = '\u{E74F}';
pub const BRIGHTNESS: char = '\u{E706}';
pub const BLUETOOTH: char = '\u{E702}';
pub const SETTINGS: char = '\u{E713}';
pub const SEARCH: char = '\u{E721}';
pub const POWER: char = '\u{E7E8}';
pub const LOCK: char = '\u{E72E}';
pub const SIGNOUT: char = '\u{F3B1}';
pub const PLAY: char = '\u{E768}';
pub const PAUSE: char = '\u{E769}';
pub const STOP: char = '\u{E71A}';
pub const PREVIOUS: char = '\u{E892}';
pub const NEXT: char = '\u{E893}';
pub const CHEVRON_DOWN: char = '\u{E70D}';
pub const CHEVRON_UP: char = '\u{E70E}';
pub const CHEVRON_LEFT: char = '\u{E76B}';
pub const CHEVRON_RIGHT: char = '\u{E76C}';
pub const CHECK: char = '\u{E73E}';
pub const CLOSE: char = '\u{E711}';
pub const MORE: char = '\u{E712}';
pub const INFO: char = '\u{E946}';
pub const WARNING: char = '\u{E7BA}';
pub const ERROR: char = '\u{E783}';
pub const CALENDAR: char = '\u{E787}';
pub const CLOCK: char = '\u{E823}';
pub const NOTIFICATION: char = '\u{E7E7}';
pub const WINDOW: char = '\u{E737}';
pub const MAXIMIZE: char = '\u{E739}';
pub const MINIMIZE: char = '\u{E738}';
pub const RESTORE: char = '\u{E923}';

} // verus!
