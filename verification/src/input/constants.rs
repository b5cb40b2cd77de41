//! Key codes of the functional keys. They lie in the Unicode private use
//! area, from U+E000 on, so that no printable character shares one.

use vstd::prelude::*;

verus! {

pub const ESCAPE: u32 = 57344;

pub const ENTER: u32 = 57345;

pub const TAB: u32 = 57346;

pub const BACKSPACE: u32 = 57347;

pub const INSERT: u32 = 57348;

pub const DELETE: u32 = 57349;

pub const LEFT: u32 = 57350;

pub const RIGHT: u32 = 57351;

pub const UP: u32 = 57352;

pub const DOWN: u32 = 57353;

pub const PAGE_UP: u32 = 57354;

pub const PAGE_DOWN: u32 = 57355;

pub const HOME: u32 = 57356;

pub const END: u32 = 57357;

pub const CAPS_LOCK: u32 = 57358;

pub const SCROLL_LOCK: u32 = 57359;

pub const NUM_LOCK: u32 = 57360;

pub const PRINT_SCREEN: u32 = 57361;

pub const PAUSE: u32 = 57362;

pub const MENU: u32 = 57363;

pub const F1: u32 = 57364;

pub const F2: u32 = 57365;

pub const F3: u32 = 57366;

pub const F4: u32 = 57367;

pub const F5: u32 = 57368;

pub const F6: u32 = 57369;

pub const F7: u32 = 57370;

pub const F8: u32 = 57371;

pub const F9: u32 = 57372;

pub const F10: u32 = 57373;

pub const F11: u32 = 57374;

pub const F12: u32 = 57375;

pub const F13: u32 = 57376;

pub const F14: u32 = 57377;

pub const F15: u32 = 57378;

pub const F16: u32 = 57379;

pub const F17: u32 = 57380;

pub const F18: u32 = 57381;

pub const F19: u32 = 57382;

pub const F20: u32 = 57383;

pub const F21: u32 = 57384;

pub const F22: u32 = 57385;

pub const F23: u32 = 57386;

pub const F24: u32 = 57387;

pub const F25: u32 = 57388;

pub const F26: u32 = 57389;

pub const F27: u32 = 57390;

pub const F28: u32 = 57391;

pub const F29: u32 = 57392;

pub const F30: u32 = 57393;

pub const F31: u32 = 57394;

pub const F32: u32 = 57395;

pub const F33: u32 = 57396;

pub const F34: u32 = 57397;

pub const F35: u32 = 57398;

pub const KP_0: u32 = 57399;

pub const KP_1: u32 = 57400;

pub const KP_2: u32 = 57401;

pub const KP_3: u32 = 57402;

pub const KP_4: u32 = 57403;

pub const KP_5: u32 = 57404;

pub const KP_6: u32 = 57405;

pub const KP_7: u32 = 57406;

pub const KP_8: u32 = 57407;

pub const KP_9: u32 = 57408;

pub const KP_DECIMAL: u32 = 57409;

pub const KP_DIVIDE: u32 = 57410;

pub const KP_MULTIPLY: u32 = 57411;

pub const KP_SUBTRACT: u32 = 57412;

pub const KP_ADD: u32 = 57413;

pub const KP_ENTER: u32 = 57414;

pub const KP_EQUAL: u32 = 57415;

pub const KP_SEPARATOR: u32 = 57416;

pub const KP_LEFT: u32 = 57417;

pub const KP_RIGHT: u32 = 57418;

pub const KP_UP: u32 = 57419;

pub const KP_DOWN: u32 = 57420;

pub const KP_PAGE_UP: u32 = 57421;

pub const KP_PAGE_DOWN: u32 = 57422;

pub const KP_HOME: u32 = 57423;

pub const KP_END: u32 = 57424;

pub const KP_INSERT: u32 = 57425;

pub const KP_DELETE: u32 = 57426;

pub const KP_BEGIN: u32 = 57427;

pub const MEDIA_PLAY: u32 = 57428;

pub const MEDIA_PAUSE: u32 = 57429;

pub const MEDIA_PLAY_PAUSE: u32 = 57430;

pub const MEDIA_REVERSE: u32 = 57431;

pub const MEDIA_STOP: u32 = 57432;

pub const MEDIA_FAST_FORWARD: u32 = 57433;

pub const MEDIA_REWIND: u32 = 57434;

pub const MEDIA_TRACK_NEXT: u32 = 57435;

pub const MEDIA_TRACK_PREVIOUS: u32 = 57436;

pub const MEDIA_RECORD: u32 = 57437;

pub const LOWER_VOLUME: u32 = 57438;

pub const RAISE_VOLUME: u32 = 57439;

pub const MUTE_VOLUME: u32 = 57440;

pub const LEFT_SHIFT: u32 = 57441;

pub const LEFT_CONTROL: u32 = 57442;

pub const LEFT_ALT: u32 = 57443;

pub const LEFT_SUPER: u32 = 57444;

pub const LEFT_HYPER: u32 = 57445;

pub const LEFT_META: u32 = 57446;

pub const RIGHT_SHIFT: u32 = 57447;

pub const RIGHT_CONTROL: u32 = 57448;

pub const RIGHT_ALT: u32 = 57449;

pub const RIGHT_SUPER: u32 = 57450;

pub const RIGHT_HYPER: u32 = 57451;

pub const RIGHT_META: u32 = 57452;

pub const ISO_LEVEL3_SHIFT: u32 = 57453;

pub const ISO_LEVEL5_SHIFT: u32 = 57454;

} // verus!
