//! One method for each capability that a terminal can have, named as
//! terminfo names the capability. Each writes what the capability expands
//! to behind the pending output, or says why it cannot.

use crate::tty::errors::CapabilityError;
use crate::tty::{bool_parameter, flag_parameter, parameter_of, u32_parameter, TerminfoWrapper};
use vstd::prelude::*;

verus! {

impl TerminfoWrapper {
    /// Writes the capability `back_tab`.
    pub fn back_tab(&mut self) -> (r: Result<(), CapabilityError>)
        ensures
            Self::wrote(old(self), final(self), "back_tab"@, Seq::empty(), r),
    {
        self.expand_write("back_tab")
    }

    /// Writes the capability `bell`.
    pub fn bell(&mut self) -> (r: Result<(), CapabilityError>)
        ensures
            Self::wrote(old(self), final(self), "bell"@, Seq::empty(), r),
    {
        self.expand_write("bell")
    }

    /// Writes the capability `carriage_return`.
    pub fn carriage_return(&mut self) -> (r: Result<(), CapabilityError>)
        ensures
            Self::wrote(old(self), final(self), "carriage_return"@, Seq::empty(), r),
    {
        self.expand_write("carriage_return")
    }

    /// Writes the capability `clear_all_tabs`.
    pub fn clear_all_tabs(&mut self) -> (r: Result<(), CapabilityError>)
        ensures
            Self::wrote(old(self), final(self), "clear_all_tabs"@, Seq::empty(), r),
    {
        self.expand_write("clear_all_tabs")
    }

    /// Writes the capability `clear_screen`.
    pub fn clear_screen(&mut self) -> (r: Result<(), CapabilityError>)
        ensures
            Self::wrote(old(self), final(self), "clear_screen"@, Seq::empty(), r),
    {
        self.expand_write("clear_screen")
    }

    /// Writes the capability `clr_eol`.
    pub fn clr_eol(&mut self) -> (r: Result<(), CapabilityError>)
        ensures
            Self::wrote(old(self), final(self), "clr_eol"@, Seq::empty(), r),
    {
        self.expand_write("clr_eol")
    }

    /// Writes the capability `clr_eos`.
    pub fn clr_eos(&mut self) -> (r: Result<(), CapabilityError>)
        ensures
            Self::wrote(old(self), final(self), "clr_eos"@, Seq::empty(), r),
    {
        self.expand_write("clr_eos")
    }

    /// Writes the capability `command_character`.
    pub fn command_character(&mut self) -> (r: Result<(), CapabilityError>)
        ensures
            Self::wrote(old(self), final(self), "command_character"@, Seq::empty(), r),
    {
        self.expand_write("command_character")
    }

    /// Writes the capability `cursor_down`.
    pub fn cursor_down(&mut self) -> (r: Result<(), CapabilityError>)
        ensures
            Self::wrote(old(self), final(self), "cursor_down"@, Seq::empty(), r),
    {
        self.expand_write("cursor_down")
    }

    /// Writes the capability `cursor_home`.
    pub fn cursor_home(&mut self) -> (r: Result<(), CapabilityError>)
        ensures
            Self::wrote(old(self), final(self), "cursor_home"@, Seq::empty(), r),
    {
        self.expand_write("cursor_home")
    }

    /// Writes the capability `cursor_invisible`.
    pub fn cursor_invisible(&mut self) -> (r: Result<(), CapabilityError>)
        ensures
            Self::wrote(old(self), final(self), "cursor_invisible"@, Seq::empty(), r),
    {
        self.expand_write("cursor_invisible")
    }

    /// Writes the capability `cursor_left`.
    pub fn cursor_left(&mut self) -> (r: Result<(), CapabilityError>)
        ensures
            Self::wrote(old(self), final(self), "cursor_left"@, Seq::empty(), r),
    {
        self.expand_write("cursor_left")
    }

    /// Writes the capability `cursor_mem_address`.
    pub fn cursor_mem_address(&mut self) -> (r: Result<(), CapabilityError>)
        ensures
            Self::wrote(old(self), final(self), "cursor_mem_address"@, Seq::empty(), r),
    {
        self.expand_write("cursor_mem_address")
    }

    /// Writes the capability `cursor_normal`.
    pub fn cursor_normal(&mut self) -> (r: Result<(), CapabilityError>)
        ensures
            Self::wrote(old(self), final(self), "cursor_normal"@, Seq::empty(), r),
    {
        self.expand_write("cursor_normal")
    }

    /// Writes the capability `cursor_right`.
    pub fn cursor_right(&mut self) -> (r: Result<(), CapabilityError>)
        ensures
            Self::wrote(old(self), final(self), "cursor_right"@, Seq::empty(), r),
    {
        self.expand_write("cursor_right")
    }

    /// Writes the capability `cursor_to_ll`.
    pub fn cursor_to_ll(&mut self) -> (r: Result<(), CapabilityError>)
        ensures
            Self::wrote(old(self), final(self), "cursor_to_ll"@, Seq::empty(), r),
    {
        self.expand_write("cursor_to_ll")
    }

    /// Writes the capability `cursor_up`.
    pub fn cursor_up(&mut self) -> (r: Result<(), CapabilityError>)
        ensures
            Self::wrote(old(self), final(self), "cursor_up"@, Seq::empty(), r),
    {
        self.expand_write("cursor_up")
    }

    /// Writes the capability `cursor_visible`.
    pub fn cursor_visible(&mut self) -> (r: Result<(), CapabilityError>)
        ensures
            Self::wrote(old(self), final(self), "cursor_visible"@, Seq::empty(), r),
    {
        self.expand_write("cursor_visible")
    }

    /// Writes the capability `delete_character`.
    pub fn delete_character(&mut self) -> (r: Result<(), CapabilityError>)
        ensures
            Self::wrote(old(self), final(self), "delete_character"@, Seq::empty(), r),
    {
        self.expand_write("delete_character")
    }

    /// Writes the capability `delete_line`.
    pub fn delete_line(&mut self) -> (r: Result<(), CapabilityError>)
        ensures
            Self::wrote(old(self), final(self), "delete_line"@, Seq::empty(), r),
    {
        self.expand_write("delete_line")
    }

    /// Writes the capability `dis_status_line`.
    pub fn dis_status_line(&mut self) -> (r: Result<(), CapabilityError>)
        ensures
            Self::wrote(old(self), final(self), "dis_status_line"@, Seq::empty(), r),
    {
        self.expand_write("dis_status_line")
    }

    /// Writes the capability `down_half_line`.
    pub fn down_half_line(&mut self) -> (r: Result<(), CapabilityError>)
        ensures
            Self::wrote(old(self), final(self), "down_half_line"@, Seq::empty(), r),
    {
        self.expand_write("down_half_line")
    }

    /// Writes the capability `enter_alt_charset_mode`.
    pub fn enter_alt_charset_mode(&mut self) -> (r: Result<(), CapabilityError>)
        ensures
            Self::wrote(old(self), final(self), "enter_alt_charset_mode"@, Seq::empty(), r),
    {
        self.expand_write("enter_alt_charset_mode")
    }

    /// Writes the capability `enter_blink_mode`.
    pub fn enter_blink_mode(&mut self) -> (r: Result<(), CapabilityError>)
        ensures
            Self::wrote(old(self), final(self), "enter_blink_mode"@, Seq::empty(), r),
    {
        self.expand_write("enter_blink_mode")
    }

    /// Writes the capability `enter_bold_mode`.
    pub fn enter_bold_mode(&mut self) -> (r: Result<(), CapabilityError>)
        ensures
            Self::wrote(old(self), final(self), "enter_bold_mode"@, Seq::empty(), r),
    {
        self.expand_write("enter_bold_mode")
    }

    /// Writes the capability `enter_ca_mode`.
    pub fn enter_ca_mode(&mut self) -> (r: Result<(), CapabilityError>)
        ensures
            Self::wrote(old(self), final(self), "enter_ca_mode"@, Seq::empty(), r),
    {
        self.expand_write("enter_ca_mode")
    }

    /// Writes the capability `enter_delete_mode`.
    pub fn enter_delete_mode(&mut self) -> (r: Result<(), CapabilityError>)
        ensures
            Self::wrote(old(self), final(self), "enter_delete_mode"@, Seq::empty(), r),
    {
        self.expand_write("enter_delete_mode")
    }

    /// Writes the capability `enter_dim_mode`.
    pub fn enter_dim_mode(&mut self) -> (r: Result<(), CapabilityError>)
        ensures
            Self::wrote(old(self), final(self), "enter_dim_mode"@, Seq::empty(), r),
    {
        self.expand_write("enter_dim_mode")
    }

    /// Writes the capability `enter_insert_mode`.
    pub fn enter_insert_mode(&mut self) -> (r: Result<(), CapabilityError>)
        ensures
            Self::wrote(old(self), final(self), "enter_insert_mode"@, Seq::empty(), r),
    {
        self.expand_write("enter_insert_mode")
    }

    /// Writes the capability `enter_secure_mode`.
    pub fn enter_secure_mode(&mut self) -> (r: Result<(), CapabilityError>)
        ensures
            Self::wrote(old(self), final(self), "enter_secure_mode"@, Seq::empty(), r),
    {
        self.expand_write("enter_secure_mode")
    }

    /// Writes the capability `enter_protected_mode`.
    pub fn enter_protected_mode(&mut self) -> (r: Result<(), CapabilityError>)
        ensures
            Self::wrote(old(self), final(self), "enter_protected_mode"@, Seq::empty(), r),
    {
        self.expand_write("enter_protected_mode")
    }

    /// Writes the capability `enter_reverse_mode`.
    pub fn enter_reverse_mode(&mut self) -> (r: Result<(), CapabilityError>)
        ensures
            Self::wrote(old(self), final(self), "enter_reverse_mode"@, Seq::empty(), r),
    {
        self.expand_write("enter_reverse_mode")
    }

    /// Writes the capability `enter_standout_mode`.
    pub fn enter_standout_mode(&mut self) -> (r: Result<(), CapabilityError>)
        ensures
            Self::wrote(old(self), final(self), "enter_standout_mode"@, Seq::empty(), r),
    {
        self.expand_write("enter_standout_mode")
    }

    /// Writes the capability `enter_underline_mode`.
    pub fn enter_underline_mode(&mut self) -> (r: Result<(), CapabilityError>)
        ensures
            Self::wrote(old(self), final(self), "enter_underline_mode"@, Seq::empty(), r),
    {
        self.expand_write("enter_underline_mode")
    }

    /// Writes the capability `exit_alt_charset_mode`.
    pub fn exit_alt_charset_mode(&mut self) -> (r: Result<(), CapabilityError>)
        ensures
            Self::wrote(old(self), final(self), "exit_alt_charset_mode"@, Seq::empty(), r),
    {
        self.expand_write("exit_alt_charset_mode")
    }

    /// Writes the capability `exit_attribute_mode`.
    pub fn exit_attribute_mode(&mut self) -> (r: Result<(), CapabilityError>)
        ensures
            Self::wrote(old(self), final(self), "exit_attribute_mode"@, Seq::empty(), r),
    {
        self.expand_write("exit_attribute_mode")
    }

    /// Writes the capability `exit_ca_mode`.
    pub fn exit_ca_mode(&mut self) -> (r: Result<(), CapabilityError>)
        ensures
            Self::wrote(old(self), final(self), "exit_ca_mode"@, Seq::empty(), r),
    {
        self.expand_write("exit_ca_mode")
    }

    /// Writes the capability `exit_delete_mode`.
    pub fn exit_delete_mode(&mut self) -> (r: Result<(), CapabilityError>)
        ensures
            Self::wrote(old(self), final(self), "exit_delete_mode"@, Seq::empty(), r),
    {
        self.expand_write("exit_delete_mode")
    }

    /// Writes the capability `exit_insert_mode`.
    pub fn exit_insert_mode(&mut self) -> (r: Result<(), CapabilityError>)
        ensures
            Self::wrote(old(self), final(self), "exit_insert_mode"@, Seq::empty(), r),
    {
        self.expand_write("exit_insert_mode")
    }

    /// Writes the capability `exit_standout_mode`.
    pub fn exit_standout_mode(&mut self) -> (r: Result<(), CapabilityError>)
        ensures
            Self::wrote(old(self), final(self), "exit_standout_mode"@, Seq::empty(), r),
    {
        self.expand_write("exit_standout_mode")
    }

    /// Writes the capability `exit_underline_mode`.
    pub fn exit_underline_mode(&mut self) -> (r: Result<(), CapabilityError>)
        ensures
            Self::wrote(old(self), final(self), "exit_underline_mode"@, Seq::empty(), r),
    {
        self.expand_write("exit_underline_mode")
    }

    /// Writes the capability `flash_screen`.
    pub fn flash_screen(&mut self) -> (r: Result<(), CapabilityError>)
        ensures
            Self::wrote(old(self), final(self), "flash_screen"@, Seq::empty(), r),
    {
        self.expand_write("flash_screen")
    }

    /// Writes the capability `form_feed`.
    pub fn form_feed(&mut self) -> (r: Result<(), CapabilityError>)
        ensures
            Self::wrote(old(self), final(self), "form_feed"@, Seq::empty(), r),
    {
        self.expand_write("form_feed")
    }

    /// Writes the capability `from_status_line`.
    pub fn from_status_line(&mut self) -> (r: Result<(), CapabilityError>)
        ensures
            Self::wrote(old(self), final(self), "from_status_line"@, Seq::empty(), r),
    {
        self.expand_write("from_status_line")
    }

    /// Writes the capability `init_1string`.
    pub fn init_1string(&mut self) -> (r: Result<(), CapabilityError>)
        ensures
            Self::wrote(old(self), final(self), "init_1string"@, Seq::empty(), r),
    {
        self.expand_write("init_1string")
    }

    /// Writes the capability `init_2string`.
    pub fn init_2string(&mut self) -> (r: Result<(), CapabilityError>)
        ensures
            Self::wrote(old(self), final(self), "init_2string"@, Seq::empty(), r),
    {
        self.expand_write("init_2string")
    }

    /// Writes the capability `init_3string`.
    pub fn init_3string(&mut self) -> (r: Result<(), CapabilityError>)
        ensures
            Self::wrote(old(self), final(self), "init_3string"@, Seq::empty(), r),
    {
        self.expand_write("init_3string")
    }

    /// Writes the capability `init_file`.
    pub fn init_file(&mut self) -> (r: Result<(), CapabilityError>)
        ensures
            Self::wrote(old(self), final(self), "init_file"@, Seq::empty(), r),
    {
        self.expand_write("init_file")
    }

    /// Writes the capability `insert_character`.
    pub fn insert_character(&mut self) -> (r: Result<(), CapabilityError>)
        ensures
            Self::wrote(old(self), final(self), "insert_character"@, Seq::empty(), r),
    {
        self.expand_write("insert_character")
    }

    /// Writes the capability `insert_line`.
    pub fn insert_line(&mut self) -> (r: Result<(), CapabilityError>)
        ensures
            Self::wrote(old(self), final(self), "insert_line"@, Seq::empty(), r),
    {
        self.expand_write("insert_line")
    }

    /// Writes the capability `insert_padding`.
    pub fn insert_padding(&mut self) -> (r: Result<(), CapabilityError>)
        ensures
            Self::wrote(old(self), final(self), "insert_padding"@, Seq::empty(), r),
    {
        self.expand_write("insert_padding")
    }

    /// Writes the capability `key_backspace`.
    pub fn key_backspace(&mut self) -> (r: Result<(), CapabilityError>)
        ensures
            Self::wrote(old(self), final(self), "key_backspace"@, Seq::empty(), r),
    {
        self.expand_write("key_backspace")
    }

    /// Writes the capability `key_catab`.
    pub fn key_catab(&mut self) -> (r: Result<(), CapabilityError>)
        ensures
            Self::wrote(old(self), final(self), "key_catab"@, Seq::empty(), r),
    {
        self.expand_write("key_catab")
    }

    /// Writes the capability `key_clear`.
    pub fn key_clear(&mut self) -> (r: Result<(), CapabilityError>)
        ensures
            Self::wrote(old(self), final(self), "key_clear"@, Seq::empty(), r),
    {
        self.expand_write("key_clear")
    }

    /// Writes the capability `key_ctab`.
    pub fn key_ctab(&mut self) -> (r: Result<(), CapabilityError>)
        ensures
            Self::wrote(old(self), final(self), "key_ctab"@, Seq::empty(), r),
    {
        self.expand_write("key_ctab")
    }

    /// Writes the capability `key_dc`.
    pub fn key_dc(&mut self) -> (r: Result<(), CapabilityError>)
        ensures
            Self::wrote(old(self), final(self), "key_dc"@, Seq::empty(), r),
    {
        self.expand_write("key_dc")
    }

    /// Writes the capability `key_dl`.
    pub fn key_dl(&mut self) -> (r: Result<(), CapabilityError>)
        ensures
            Self::wrote(old(self), final(self), "key_dl"@, Seq::empty(), r),
    {
        self.expand_write("key_dl")
    }

    /// Writes the capability `key_down`.
    pub fn key_down(&mut self) -> (r: Result<(), CapabilityError>)
        ensures
            Self::wrote(old(self), final(self), "key_down"@, Seq::empty(), r),
    {
        self.expand_write("key_down")
    }

    /// Writes the capability `key_eic`.
    pub fn key_eic(&mut self) -> (r: Result<(), CapabilityError>)
        ensures
            Self::wrote(old(self), final(self), "key_eic"@, Seq::empty(), r),
    {
        self.expand_write("key_eic")
    }

    /// Writes the capability `key_eol`.
    pub fn key_eol(&mut self) -> (r: Result<(), CapabilityError>)
        ensures
            Self::wrote(old(self), final(self), "key_eol"@, Seq::empty(), r),
    {
        self.expand_write("key_eol")
    }

    /// Writes the capability `key_eos`.
    pub fn key_eos(&mut self) -> (r: Result<(), CapabilityError>)
        ensures
            Self::wrote(old(self), final(self), "key_eos"@, Seq::empty(), r),
    {
        self.expand_write("key_eos")
    }

    /// Writes the capability `key_f0`.
    pub fn key_f0(&mut self) -> (r: Result<(), CapabilityError>)
        ensures
            Self::wrote(old(self), final(self), "key_f0"@, Seq::empty(), r),
    {
        self.expand_write("key_f0")
    }

    /// Writes the capability `key_f1`.
    pub fn key_f1(&mut self) -> (r: Result<(), CapabilityError>)
        ensures
            Self::wrote(old(self), final(self), "key_f1"@, Seq::empty(), r),
    {
        self.expand_write("key_f1")
    }

    /// Writes the capability `key_f10`.
    pub fn key_f10(&mut self) -> (r: Result<(), CapabilityError>)
        ensures
            Self::wrote(old(self), final(self), "key_f10"@, Seq::empty(), r),
    {
        self.expand_write("key_f10")
    }

    /// Writes the capability `key_f2`.
    pub fn key_f2(&mut self) -> (r: Result<(), CapabilityError>)
        ensures
            Self::wrote(old(self), final(self), "key_f2"@, Seq::empty(), r),
    {
        self.expand_write("key_f2")
    }

    /// Writes the capability `key_f3`.
    pub fn key_f3(&mut self) -> (r: Result<(), CapabilityError>)
        ensures
            Self::wrote(old(self), final(self), "key_f3"@, Seq::empty(), r),
    {
        self.expand_write("key_f3")
    }

    /// Writes the capability `key_f4`.
    pub fn key_f4(&mut self) -> (r: Result<(), CapabilityError>)
        ensures
            Self::wrote(old(self), final(self), "key_f4"@, Seq::empty(), r),
    {
        self.expand_write("key_f4")
    }

    /// Writes the capability `key_f5`.
    pub fn key_f5(&mut self) -> (r: Result<(), CapabilityError>)
        ensures
            Self::wrote(old(self), final(self), "key_f5"@, Seq::empty(), r),
    {
        self.expand_write("key_f5")
    }

    /// Writes the capability `key_f6`.
    pub fn key_f6(&mut self) -> (r: Result<(), CapabilityError>)
        ensures
            Self::wrote(old(self), final(self), "key_f6"@, Seq::empty(), r),
    {
        self.expand_write("key_f6")
    }

    /// Writes the capability `key_f7`.
    pub fn key_f7(&mut self) -> (r: Result<(), CapabilityError>)
        ensures
            Self::wrote(old(self), final(self), "key_f7"@, Seq::empty(), r),
    {
        self.expand_write("key_f7")
    }

    /// Writes the capability `key_f8`.
    pub fn key_f8(&mut self) -> (r: Result<(), CapabilityError>)
        ensures
            Self::wrote(old(self), final(self), "key_f8"@, Seq::empty(), r),
    {
        self.expand_write("key_f8")
    }

    /// Writes the capability `key_f9`.
    pub fn key_f9(&mut self) -> (r: Result<(), CapabilityError>)
        ensures
            Self::wrote(old(self), final(self), "key_f9"@, Seq::empty(), r),
    {
        self.expand_write("key_f9")
    }

    /// Writes the capability `key_home`.
    pub fn key_home(&mut self) -> (r: Result<(), CapabilityError>)
        ensures
            Self::wrote(old(self), final(self), "key_home"@, Seq::empty(), r),
    {
        self.expand_write("key_home")
    }

    /// Writes the capability `key_ic`.
    pub fn key_ic(&mut self) -> (r: Result<(), CapabilityError>)
        ensures
            Self::wrote(old(self), final(self), "key_ic"@, Seq::empty(), r),
    {
        self.expand_write("key_ic")
    }

    /// Writes the capability `key_il`.
    pub fn key_il(&mut self) -> (r: Result<(), CapabilityError>)
        ensures
            Self::wrote(old(self), final(self), "key_il"@, Seq::empty(), r),
    {
        self.expand_write("key_il")
    }

    /// Writes the capability `key_left`.
    pub fn key_left(&mut self) -> (r: Result<(), CapabilityError>)
        ensures
            Self::wrote(old(self), final(self), "key_left"@, Seq::empty(), r),
    {
        self.expand_write("key_left")
    }

    /// Writes the capability `key_ll`.
    pub fn key_ll(&mut self) -> (r: Result<(), CapabilityError>)
        ensures
            Self::wrote(old(self), final(self), "key_ll"@, Seq::empty(), r),
    {
        self.expand_write("key_ll")
    }

    /// Writes the capability `key_npage`.
    pub fn key_npage(&mut self) -> (r: Result<(), CapabilityError>)
        ensures
            Self::wrote(old(self), final(self), "key_npage"@, Seq::empty(), r),
    {
        self.expand_write("key_npage")
    }

    /// Writes the capability `key_ppage`.
    pub fn key_ppage(&mut self) -> (r: Result<(), CapabilityError>)
        ensures
            Self::wrote(old(self), final(self), "key_ppage"@, Seq::empty(), r),
    {
        self.expand_write("key_ppage")
    }

    /// Writes the capability `key_right`.
    pub fn key_right(&mut self) -> (r: Result<(), CapabilityError>)
        ensures
            Self::wrote(old(self), final(self), "key_right"@, Seq::empty(), r),
    {
        self.expand_write("key_right")
    }

    /// Writes the capability `key_sf`.
    pub fn key_sf(&mut self) -> (r: Result<(), CapabilityError>)
        ensures
            Self::wrote(old(self), final(self), "key_sf"@, Seq::empty(), r),
    {
        self.expand_write("key_sf")
    }

    /// Writes the capability `key_sr`.
    pub fn key_sr(&mut self) -> (r: Result<(), CapabilityError>)
        ensures
            Self::wrote(old(self), final(self), "key_sr"@, Seq::empty(), r),
    {
        self.expand_write("key_sr")
    }

    /// Writes the capability `key_stab`.
    pub fn key_stab(&mut self) -> (r: Result<(), CapabilityError>)
        ensures
            Self::wrote(old(self), final(self), "key_stab"@, Seq::empty(), r),
    {
        self.expand_write("key_stab")
    }

    /// Writes the capability `key_up`.
    pub fn key_up(&mut self) -> (r: Result<(), CapabilityError>)
        ensures
            Self::wrote(old(self), final(self), "key_up"@, Seq::empty(), r),
    {
        self.expand_write("key_up")
    }

    /// Writes the capability `keypad_local`.
    pub fn keypad_local(&mut self) -> (r: Result<(), CapabilityError>)
        ensures
            Self::wrote(old(self), final(self), "keypad_local"@, Seq::empty(), r),
    {
        self.expand_write("keypad_local")
    }

    /// Writes the capability `keypad_xmit`.
    pub fn keypad_xmit(&mut self) -> (r: Result<(), CapabilityError>)
        ensures
            Self::wrote(old(self), final(self), "keypad_xmit"@, Seq::empty(), r),
    {
        self.expand_write("keypad_xmit")
    }

    /// Writes the capability `lab_f0`.
    pub fn lab_f0(&mut self) -> (r: Result<(), CapabilityError>)
        ensures
            Self::wrote(old(self), final(self), "lab_f0"@, Seq::empty(), r),
    {
        self.expand_write("lab_f0")
    }

    /// Writes the capability `lab_f1`.
    pub fn lab_f1(&mut self) -> (r: Result<(), CapabilityError>)
        ensures
            Self::wrote(old(self), final(self), "lab_f1"@, Seq::empty(), r),
    {
        self.expand_write("lab_f1")
    }

    /// Writes the capability `lab_f10`.
    pub fn lab_f10(&mut self) -> (r: Result<(), CapabilityError>)
        ensures
            Self::wrote(old(self), final(self), "lab_f10"@, Seq::empty(), r),
    {
        self.expand_write("lab_f10")
    }

    /// Writes the capability `lab_f2`.
    pub fn lab_f2(&mut self) -> (r: Result<(), CapabilityError>)
        ensures
            Self::wrote(old(self), final(self), "lab_f2"@, Seq::empty(), r),
    {
        self.expand_write("lab_f2")
    }

    /// Writes the capability `lab_f3`.
    pub fn lab_f3(&mut self) -> (r: Result<(), CapabilityError>)
        ensures
            Self::wrote(old(self), final(self), "lab_f3"@, Seq::empty(), r),
    {
        self.expand_write("lab_f3")
    }

    /// Writes the capability `lab_f4`.
    pub fn lab_f4(&mut self) -> (r: Result<(), CapabilityError>)
        ensures
            Self::wrote(old(self), final(self), "lab_f4"@, Seq::empty(), r),
    {
        self.expand_write("lab_f4")
    }

    /// Writes the capability `lab_f5`.
    pub fn lab_f5(&mut self) -> (r: Result<(), CapabilityError>)
        ensures
            Self::wrote(old(self), final(self), "lab_f5"@, Seq::empty(), r),
    {
        self.expand_write("lab_f5")
    }

    /// Writes the capability `lab_f6`.
    pub fn lab_f6(&mut self) -> (r: Result<(), CapabilityError>)
        ensures
            Self::wrote(old(self), final(self), "lab_f6"@, Seq::empty(), r),
    {
        self.expand_write("lab_f6")
    }

    /// Writes the capability `lab_f7`.
    pub fn lab_f7(&mut self) -> (r: Result<(), CapabilityError>)
        ensures
            Self::wrote(old(self), final(self), "lab_f7"@, Seq::empty(), r),
    {
        self.expand_write("lab_f7")
    }

    /// Writes the capability `lab_f8`.
    pub fn lab_f8(&mut self) -> (r: Result<(), CapabilityError>)
        ensures
            Self::wrote(old(self), final(self), "lab_f8"@, Seq::empty(), r),
    {
        self.expand_write("lab_f8")
    }

    /// Writes the capability `lab_f9`.
    pub fn lab_f9(&mut self) -> (r: Result<(), CapabilityError>)
        ensures
            Self::wrote(old(self), final(self), "lab_f9"@, Seq::empty(), r),
    {
        self.expand_write("lab_f9")
    }

    /// Writes the capability `meta_off`.
    pub fn meta_off(&mut self) -> (r: Result<(), CapabilityError>)
        ensures
            Self::wrote(old(self), final(self), "meta_off"@, Seq::empty(), r),
    {
        self.expand_write("meta_off")
    }

    /// Writes the capability `meta_on`.
    pub fn meta_on(&mut self) -> (r: Result<(), CapabilityError>)
        ensures
            Self::wrote(old(self), final(self), "meta_on"@, Seq::empty(), r),
    {
        self.expand_write("meta_on")
    }

    /// Writes the capability `newline`.
    pub fn newline(&mut self) -> (r: Result<(), CapabilityError>)
        ensures
            Self::wrote(old(self), final(self), "newline"@, Seq::empty(), r),
    {
        self.expand_write("newline")
    }

    /// Writes the capability `pad_char`.
    pub fn pad_char(&mut self) -> (r: Result<(), CapabilityError>)
        ensures
            Self::wrote(old(self), final(self), "pad_char"@, Seq::empty(), r),
    {
        self.expand_write("pad_char")
    }

    /// Writes the capability `pkey_key`.
    pub fn pkey_key(&mut self) -> (r: Result<(), CapabilityError>)
        ensures
            Self::wrote(old(self), final(self), "pkey_key"@, Seq::empty(), r),
    {
        self.expand_write("pkey_key")
    }

    /// Writes the capability `pkey_local`.
    pub fn pkey_local(&mut self) -> (r: Result<(), CapabilityError>)
        ensures
            Self::wrote(old(self), final(self), "pkey_local"@, Seq::empty(), r),
    {
        self.expand_write("pkey_local")
    }

    /// Writes the capability `pkey_xmit`.
    pub fn pkey_xmit(&mut self) -> (r: Result<(), CapabilityError>)
        ensures
            Self::wrote(old(self), final(self), "pkey_xmit"@, Seq::empty(), r),
    {
        self.expand_write("pkey_xmit")
    }

    /// Writes the capability `print_screen`.
    pub fn print_screen(&mut self) -> (r: Result<(), CapabilityError>)
        ensures
            Self::wrote(old(self), final(self), "print_screen"@, Seq::empty(), r),
    {
        self.expand_write("print_screen")
    }

    /// Writes the capability `prtr_off`.
    pub fn prtr_off(&mut self) -> (r: Result<(), CapabilityError>)
        ensures
            Self::wrote(old(self), final(self), "prtr_off"@, Seq::empty(), r),
    {
        self.expand_write("prtr_off")
    }

    /// Writes the capability `prtr_on`.
    pub fn prtr_on(&mut self) -> (r: Result<(), CapabilityError>)
        ensures
            Self::wrote(old(self), final(self), "prtr_on"@, Seq::empty(), r),
    {
        self.expand_write("prtr_on")
    }

    /// Writes the capability `repeat_char`.
    pub fn repeat_char(&mut self) -> (r: Result<(), CapabilityError>)
        ensures
            Self::wrote(old(self), final(self), "repeat_char"@, Seq::empty(), r),
    {
        self.expand_write("repeat_char")
    }

    /// Writes the capability `reset_1string`.
    pub fn reset_1string(&mut self) -> (r: Result<(), CapabilityError>)
        ensures
            Self::wrote(old(self), final(self), "reset_1string"@, Seq::empty(), r),
    {
        self.expand_write("reset_1string")
    }

    /// Writes the capability `reset_2string`.
    pub fn reset_2string(&mut self) -> (r: Result<(), CapabilityError>)
        ensures
            Self::wrote(old(self), final(self), "reset_2string"@, Seq::empty(), r),
    {
        self.expand_write("reset_2string")
    }

    /// Writes the capability `reset_3string`.
    pub fn reset_3string(&mut self) -> (r: Result<(), CapabilityError>)
        ensures
            Self::wrote(old(self), final(self), "reset_3string"@, Seq::empty(), r),
    {
        self.expand_write("reset_3string")
    }

    /// Writes the capability `reset_file`.
    pub fn reset_file(&mut self) -> (r: Result<(), CapabilityError>)
        ensures
            Self::wrote(old(self), final(self), "reset_file"@, Seq::empty(), r),
    {
        self.expand_write("reset_file")
    }

    /// Writes the capability `restore_cursor`.
    pub fn restore_cursor(&mut self) -> (r: Result<(), CapabilityError>)
        ensures
            Self::wrote(old(self), final(self), "restore_cursor"@, Seq::empty(), r),
    {
        self.expand_write("restore_cursor")
    }

    /// Writes the capability `save_cursor`.
    pub fn save_cursor(&mut self) -> (r: Result<(), CapabilityError>)
        ensures
            Self::wrote(old(self), final(self), "save_cursor"@, Seq::empty(), r),
    {
        self.expand_write("save_cursor")
    }

    /// Writes the capability `scroll_forward`.
    pub fn scroll_forward(&mut self) -> (r: Result<(), CapabilityError>)
        ensures
            Self::wrote(old(self), final(self), "scroll_forward"@, Seq::empty(), r),
    {
        self.expand_write("scroll_forward")
    }

    /// Writes the capability `scroll_reverse`.
    pub fn scroll_reverse(&mut self) -> (r: Result<(), CapabilityError>)
        ensures
            Self::wrote(old(self), final(self), "scroll_reverse"@, Seq::empty(), r),
    {
        self.expand_write("scroll_reverse")
    }

    /// Writes the capability `set_tab`.
    pub fn set_tab(&mut self) -> (r: Result<(), CapabilityError>)
        ensures
            Self::wrote(old(self), final(self), "set_tab"@, Seq::empty(), r),
    {
        self.expand_write("set_tab")
    }

    /// Writes the capability `set_window`.
    pub fn set_window(&mut self) -> (r: Result<(), CapabilityError>)
        ensures
            Self::wrote(old(self), final(self), "set_window"@, Seq::empty(), r),
    {
        self.expand_write("set_window")
    }

    /// Writes the capability `tab`.
    pub fn tab(&mut self) -> (r: Result<(), CapabilityError>)
        ensures
            Self::wrote(old(self), final(self), "tab"@, Seq::empty(), r),
    {
        self.expand_write("tab")
    }

    /// Writes the capability `to_status_line`.
    pub fn to_status_line(&mut self) -> (r: Result<(), CapabilityError>)
        ensures
            Self::wrote(old(self), final(self), "to_status_line"@, Seq::empty(), r),
    {
        self.expand_write("to_status_line")
    }

    /// Writes the capability `underline_char`.
    pub fn underline_char(&mut self) -> (r: Result<(), CapabilityError>)
        ensures
            Self::wrote(old(self), final(self), "underline_char"@, Seq::empty(), r),
    {
        self.expand_write("underline_char")
    }

    /// Writes the capability `up_half_line`.
    pub fn up_half_line(&mut self) -> (r: Result<(), CapabilityError>)
        ensures
            Self::wrote(old(self), final(self), "up_half_line"@, Seq::empty(), r),
    {
        self.expand_write("up_half_line")
    }

    /// Writes the capability `init_prog`.
    pub fn init_prog(&mut self) -> (r: Result<(), CapabilityError>)
        ensures
            Self::wrote(old(self), final(self), "init_prog"@, Seq::empty(), r),
    {
        self.expand_write("init_prog")
    }

    /// Writes the capability `key_a1`.
    pub fn key_a1(&mut self) -> (r: Result<(), CapabilityError>)
        ensures
            Self::wrote(old(self), final(self), "key_a1"@, Seq::empty(), r),
    {
        self.expand_write("key_a1")
    }

    /// Writes the capability `key_a3`.
    pub fn key_a3(&mut self) -> (r: Result<(), CapabilityError>)
        ensures
            Self::wrote(old(self), final(self), "key_a3"@, Seq::empty(), r),
    {
        self.expand_write("key_a3")
    }

    /// Writes the capability `key_b2`.
    pub fn key_b2(&mut self) -> (r: Result<(), CapabilityError>)
        ensures
            Self::wrote(old(self), final(self), "key_b2"@, Seq::empty(), r),
    {
        self.expand_write("key_b2")
    }

    /// Writes the capability `key_c1`.
    pub fn key_c1(&mut self) -> (r: Result<(), CapabilityError>)
        ensures
            Self::wrote(old(self), final(self), "key_c1"@, Seq::empty(), r),
    {
        self.expand_write("key_c1")
    }

    /// Writes the capability `key_c3`.
    pub fn key_c3(&mut self) -> (r: Result<(), CapabilityError>)
        ensures
            Self::wrote(old(self), final(self), "key_c3"@, Seq::empty(), r),
    {
        self.expand_write("key_c3")
    }

    /// Writes the capability `prtr_non`.
    pub fn prtr_non(&mut self) -> (r: Result<(), CapabilityError>)
        ensures
            Self::wrote(old(self), final(self), "prtr_non"@, Seq::empty(), r),
    {
        self.expand_write("prtr_non")
    }

    /// Writes the capability `char_padding`.
    pub fn char_padding(&mut self) -> (r: Result<(), CapabilityError>)
        ensures
            Self::wrote(old(self), final(self), "char_padding"@, Seq::empty(), r),
    {
        self.expand_write("char_padding")
    }

    /// Writes the capability `acs_chars`.
    pub fn acs_chars(&mut self) -> (r: Result<(), CapabilityError>)
        ensures
            Self::wrote(old(self), final(self), "acs_chars"@, Seq::empty(), r),
    {
        self.expand_write("acs_chars")
    }

    /// Writes the capability `plab_norm`.
    pub fn plab_norm(&mut self) -> (r: Result<(), CapabilityError>)
        ensures
            Self::wrote(old(self), final(self), "plab_norm"@, Seq::empty(), r),
    {
        self.expand_write("plab_norm")
    }

    /// Writes the capability `key_btab`.
    pub fn key_btab(&mut self) -> (r: Result<(), CapabilityError>)
        ensures
            Self::wrote(old(self), final(self), "key_btab"@, Seq::empty(), r),
    {
        self.expand_write("key_btab")
    }

    /// Writes the capability `enter_xon_mode`.
    pub fn enter_xon_mode(&mut self) -> (r: Result<(), CapabilityError>)
        ensures
            Self::wrote(old(self), final(self), "enter_xon_mode"@, Seq::empty(), r),
    {
        self.expand_write("enter_xon_mode")
    }

    /// Writes the capability `exit_xon_mode`.
    pub fn exit_xon_mode(&mut self) -> (r: Result<(), CapabilityError>)
        ensures
            Self::wrote(old(self), final(self), "exit_xon_mode"@, Seq::empty(), r),
    {
        self.expand_write("exit_xon_mode")
    }

    /// Writes the capability `enter_am_mode`.
    pub fn enter_am_mode(&mut self) -> (r: Result<(), CapabilityError>)
        ensures
            Self::wrote(old(self), final(self), "enter_am_mode"@, Seq::empty(), r),
    {
        self.expand_write("enter_am_mode")
    }

    /// Writes the capability `exit_am_mode`.
    pub fn exit_am_mode(&mut self) -> (r: Result<(), CapabilityError>)
        ensures
            Self::wrote(old(self), final(self), "exit_am_mode"@, Seq::empty(), r),
    {
        self.expand_write("exit_am_mode")
    }

    /// Writes the capability `xon_character`.
    pub fn xon_character(&mut self) -> (r: Result<(), CapabilityError>)
        ensures
            Self::wrote(old(self), final(self), "xon_character"@, Seq::empty(), r),
    {
        self.expand_write("xon_character")
    }

    /// Writes the capability `xoff_character`.
    pub fn xoff_character(&mut self) -> (r: Result<(), CapabilityError>)
        ensures
            Self::wrote(old(self), final(self), "xoff_character"@, Seq::empty(), r),
    {
        self.expand_write("xoff_character")
    }

    /// Writes the capability `ena_acs`.
    pub fn ena_acs(&mut self) -> (r: Result<(), CapabilityError>)
        ensures
            Self::wrote(old(self), final(self), "ena_acs"@, Seq::empty(), r),
    {
        self.expand_write("ena_acs")
    }

    /// Writes the capability `label_on`.
    pub fn label_on(&mut self) -> (r: Result<(), CapabilityError>)
        ensures
            Self::wrote(old(self), final(self), "label_on"@, Seq::empty(), r),
    {
        self.expand_write("label_on")
    }

    /// Writes the capability `label_off`.
    pub fn label_off(&mut self) -> (r: Result<(), CapabilityError>)
        ensures
            Self::wrote(old(self), final(self), "label_off"@, Seq::empty(), r),
    {
        self.expand_write("label_off")
    }

    /// Writes the capability `key_beg`.
    pub fn key_beg(&mut self) -> (r: Result<(), CapabilityError>)
        ensures
            Self::wrote(old(self), final(self), "key_beg"@, Seq::empty(), r),
    {
        self.expand_write("key_beg")
    }

    /// Writes the capability `key_cancel`.
    pub fn key_cancel(&mut self) -> (r: Result<(), CapabilityError>)
        ensures
            Self::wrote(old(self), final(self), "key_cancel"@, Seq::empty(), r),
    {
        self.expand_write("key_cancel")
    }

    /// Writes the capability `key_close`.
    pub fn key_close(&mut self) -> (r: Result<(), CapabilityError>)
        ensures
            Self::wrote(old(self), final(self), "key_close"@, Seq::empty(), r),
    {
        self.expand_write("key_close")
    }

    /// Writes the capability `key_command`.
    pub fn key_command(&mut self) -> (r: Result<(), CapabilityError>)
        ensures
            Self::wrote(old(self), final(self), "key_command"@, Seq::empty(), r),
    {
        self.expand_write("key_command")
    }

    /// Writes the capability `key_copy`.
    pub fn key_copy(&mut self) -> (r: Result<(), CapabilityError>)
        ensures
            Self::wrote(old(self), final(self), "key_copy"@, Seq::empty(), r),
    {
        self.expand_write("key_copy")
    }

    /// Writes the capability `key_create`.
    pub fn key_create(&mut self) -> (r: Result<(), CapabilityError>)
        ensures
            Self::wrote(old(self), final(self), "key_create"@, Seq::empty(), r),
    {
        self.expand_write("key_create")
    }

    /// Writes the capability `key_end`.
    pub fn key_end(&mut self) -> (r: Result<(), CapabilityError>)
        ensures
            Self::wrote(old(self), final(self), "key_end"@, Seq::empty(), r),
    {
        self.expand_write("key_end")
    }

    /// Writes the capability `key_enter`.
    pub fn key_enter(&mut self) -> (r: Result<(), CapabilityError>)
        ensures
            Self::wrote(old(self), final(self), "key_enter"@, Seq::empty(), r),
    {
        self.expand_write("key_enter")
    }

    /// Writes the capability `key_exit`.
    pub fn key_exit(&mut self) -> (r: Result<(), CapabilityError>)
        ensures
            Self::wrote(old(self), final(self), "key_exit"@, Seq::empty(), r),
    {
        self.expand_write("key_exit")
    }

    /// Writes the capability `key_find`.
    pub fn key_find(&mut self) -> (r: Result<(), CapabilityError>)
        ensures
            Self::wrote(old(self), final(self), "key_find"@, Seq::empty(), r),
    {
        self.expand_write("key_find")
    }

    /// Writes the capability `key_help`.
    pub fn key_help(&mut self) -> (r: Result<(), CapabilityError>)
        ensures
            Self::wrote(old(self), final(self), "key_help"@, Seq::empty(), r),
    {
        self.expand_write("key_help")
    }

    /// Writes the capability `key_mark`.
    pub fn key_mark(&mut self) -> (r: Result<(), CapabilityError>)
        ensures
            Self::wrote(old(self), final(self), "key_mark"@, Seq::empty(), r),
    {
        self.expand_write("key_mark")
    }

    /// Writes the capability `key_message`.
    pub fn key_message(&mut self) -> (r: Result<(), CapabilityError>)
        ensures
            Self::wrote(old(self), final(self), "key_message"@, Seq::empty(), r),
    {
        self.expand_write("key_message")
    }

    /// Writes the capability `key_move`.
    pub fn key_move(&mut self) -> (r: Result<(), CapabilityError>)
        ensures
            Self::wrote(old(self), final(self), "key_move"@, Seq::empty(), r),
    {
        self.expand_write("key_move")
    }

    /// Writes the capability `key_next`.
    pub fn key_next(&mut self) -> (r: Result<(), CapabilityError>)
        ensures
            Self::wrote(old(self), final(self), "key_next"@, Seq::empty(), r),
    {
        self.expand_write("key_next")
    }

    /// Writes the capability `key_open`.
    pub fn key_open(&mut self) -> (r: Result<(), CapabilityError>)
        ensures
            Self::wrote(old(self), final(self), "key_open"@, Seq::empty(), r),
    {
        self.expand_write("key_open")
    }

    /// Writes the capability `key_options`.
    pub fn key_options(&mut self) -> (r: Result<(), CapabilityError>)
        ensures
            Self::wrote(old(self), final(self), "key_options"@, Seq::empty(), r),
    {
        self.expand_write("key_options")
    }

    /// Writes the capability `key_previous`.
    pub fn key_previous(&mut self) -> (r: Result<(), CapabilityError>)
        ensures
            Self::wrote(old(self), final(self), "key_previous"@, Seq::empty(), r),
    {
        self.expand_write("key_previous")
    }

    /// Writes the capability `key_print`.
    pub fn key_print(&mut self) -> (r: Result<(), CapabilityError>)
        ensures
            Self::wrote(old(self), final(self), "key_print"@, Seq::empty(), r),
    {
        self.expand_write("key_print")
    }

    /// Writes the capability `key_redo`.
    pub fn key_redo(&mut self) -> (r: Result<(), CapabilityError>)
        ensures
            Self::wrote(old(self), final(self), "key_redo"@, Seq::empty(), r),
    {
        self.expand_write("key_redo")
    }

    /// Writes the capability `key_reference`.
    pub fn key_reference(&mut self) -> (r: Result<(), CapabilityError>)
        ensures
            Self::wrote(old(self), final(self), "key_reference"@, Seq::empty(), r),
    {
        self.expand_write("key_reference")
    }

    /// Writes the capability `key_refresh`.
    pub fn key_refresh(&mut self) -> (r: Result<(), CapabilityError>)
        ensures
            Self::wrote(old(self), final(self), "key_refresh"@, Seq::empty(), r),
    {
        self.expand_write("key_refresh")
    }

    /// Writes the capability `key_replace`.
    pub fn key_replace(&mut self) -> (r: Result<(), CapabilityError>)
        ensures
            Self::wrote(old(self), final(self), "key_replace"@, Seq::empty(), r),
    {
        self.expand_write("key_replace")
    }

    /// Writes the capability `key_restart`.
    pub fn key_restart(&mut self) -> (r: Result<(), CapabilityError>)
        ensures
            Self::wrote(old(self), final(self), "key_restart"@, Seq::empty(), r),
    {
        self.expand_write("key_restart")
    }

    /// Writes the capability `key_resume`.
    pub fn key_resume(&mut self) -> (r: Result<(), CapabilityError>)
        ensures
            Self::wrote(old(self), final(self), "key_resume"@, Seq::empty(), r),
    {
        self.expand_write("key_resume")
    }

    /// Writes the capability `key_save`.
    pub fn key_save(&mut self) -> (r: Result<(), CapabilityError>)
        ensures
            Self::wrote(old(self), final(self), "key_save"@, Seq::empty(), r),
    {
        self.expand_write("key_save")
    }

    /// Writes the capability `key_suspend`.
    pub fn key_suspend(&mut self) -> (r: Result<(), CapabilityError>)
        ensures
            Self::wrote(old(self), final(self), "key_suspend"@, Seq::empty(), r),
    {
        self.expand_write("key_suspend")
    }

    /// Writes the capability `key_undo`.
    pub fn key_undo(&mut self) -> (r: Result<(), CapabilityError>)
        ensures
            Self::wrote(old(self), final(self), "key_undo"@, Seq::empty(), r),
    {
        self.expand_write("key_undo")
    }

    /// Writes the capability `key_sbeg`.
    pub fn key_sbeg(&mut self) -> (r: Result<(), CapabilityError>)
        ensures
            Self::wrote(old(self), final(self), "key_sbeg"@, Seq::empty(), r),
    {
        self.expand_write("key_sbeg")
    }

    /// Writes the capability `key_scancel`.
    pub fn key_scancel(&mut self) -> (r: Result<(), CapabilityError>)
        ensures
            Self::wrote(old(self), final(self), "key_scancel"@, Seq::empty(), r),
    {
        self.expand_write("key_scancel")
    }

    /// Writes the capability `key_scommand`.
    pub fn key_scommand(&mut self) -> (r: Result<(), CapabilityError>)
        ensures
            Self::wrote(old(self), final(self), "key_scommand"@, Seq::empty(), r),
    {
        self.expand_write("key_scommand")
    }

    /// Writes the capability `key_scopy`.
    pub fn key_scopy(&mut self) -> (r: Result<(), CapabilityError>)
        ensures
            Self::wrote(old(self), final(self), "key_scopy"@, Seq::empty(), r),
    {
        self.expand_write("key_scopy")
    }

    /// Writes the capability `key_screate`.
    pub fn key_screate(&mut self) -> (r: Result<(), CapabilityError>)
        ensures
            Self::wrote(old(self), final(self), "key_screate"@, Seq::empty(), r),
    {
        self.expand_write("key_screate")
    }

    /// Writes the capability `key_sdc`.
    pub fn key_sdc(&mut self) -> (r: Result<(), CapabilityError>)
        ensures
            Self::wrote(old(self), final(self), "key_sdc"@, Seq::empty(), r),
    {
        self.expand_write("key_sdc")
    }

    /// Writes the capability `key_sdl`.
    pub fn key_sdl(&mut self) -> (r: Result<(), CapabilityError>)
        ensures
            Self::wrote(old(self), final(self), "key_sdl"@, Seq::empty(), r),
    {
        self.expand_write("key_sdl")
    }

    /// Writes the capability `key_select`.
    pub fn key_select(&mut self) -> (r: Result<(), CapabilityError>)
        ensures
            Self::wrote(old(self), final(self), "key_select"@, Seq::empty(), r),
    {
        self.expand_write("key_select")
    }

    /// Writes the capability `key_send`.
    pub fn key_send(&mut self) -> (r: Result<(), CapabilityError>)
        ensures
            Self::wrote(old(self), final(self), "key_send"@, Seq::empty(), r),
    {
        self.expand_write("key_send")
    }

    /// Writes the capability `key_seol`.
    pub fn key_seol(&mut self) -> (r: Result<(), CapabilityError>)
        ensures
            Self::wrote(old(self), final(self), "key_seol"@, Seq::empty(), r),
    {
        self.expand_write("key_seol")
    }

    /// Writes the capability `key_sexit`.
    pub fn key_sexit(&mut self) -> (r: Result<(), CapabilityError>)
        ensures
            Self::wrote(old(self), final(self), "key_sexit"@, Seq::empty(), r),
    {
        self.expand_write("key_sexit")
    }

    /// Writes the capability `key_sfind`.
    pub fn key_sfind(&mut self) -> (r: Result<(), CapabilityError>)
        ensures
            Self::wrote(old(self), final(self), "key_sfind"@, Seq::empty(), r),
    {
        self.expand_write("key_sfind")
    }

    /// Writes the capability `key_shelp`.
    pub fn key_shelp(&mut self) -> (r: Result<(), CapabilityError>)
        ensures
            Self::wrote(old(self), final(self), "key_shelp"@, Seq::empty(), r),
    {
        self.expand_write("key_shelp")
    }

    /// Writes the capability `key_shome`.
    pub fn key_shome(&mut self) -> (r: Result<(), CapabilityError>)
        ensures
            Self::wrote(old(self), final(self), "key_shome"@, Seq::empty(), r),
    {
        self.expand_write("key_shome")
    }

    /// Writes the capability `key_sic`.
    pub fn key_sic(&mut self) -> (r: Result<(), CapabilityError>)
        ensures
            Self::wrote(old(self), final(self), "key_sic"@, Seq::empty(), r),
    {
        self.expand_write("key_sic")
    }

    /// Writes the capability `key_sleft`.
    pub fn key_sleft(&mut self) -> (r: Result<(), CapabilityError>)
        ensures
            Self::wrote(old(self), final(self), "key_sleft"@, Seq::empty(), r),
    {
        self.expand_write("key_sleft")
    }

    /// Writes the capability `key_smessage`.
    pub fn key_smessage(&mut self) -> (r: Result<(), CapabilityError>)
        ensures
            Self::wrote(old(self), final(self), "key_smessage"@, Seq::empty(), r),
    {
        self.expand_write("key_smessage")
    }

    /// Writes the capability `key_smove`.
    pub fn key_smove(&mut self) -> (r: Result<(), CapabilityError>)
        ensures
            Self::wrote(old(self), final(self), "key_smove"@, Seq::empty(), r),
    {
        self.expand_write("key_smove")
    }

    /// Writes the capability `key_snext`.
    pub fn key_snext(&mut self) -> (r: Result<(), CapabilityError>)
        ensures
            Self::wrote(old(self), final(self), "key_snext"@, Seq::empty(), r),
    {
        self.expand_write("key_snext")
    }

    /// Writes the capability `key_soptions`.
    pub fn key_soptions(&mut self) -> (r: Result<(), CapabilityError>)
        ensures
            Self::wrote(old(self), final(self), "key_soptions"@, Seq::empty(), r),
    {
        self.expand_write("key_soptions")
    }

    /// Writes the capability `key_sprevious`.
    pub fn key_sprevious(&mut self) -> (r: Result<(), CapabilityError>)
        ensures
            Self::wrote(old(self), final(self), "key_sprevious"@, Seq::empty(), r),
    {
        self.expand_write("key_sprevious")
    }

    /// Writes the capability `key_sprint`.
    pub fn key_sprint(&mut self) -> (r: Result<(), CapabilityError>)
        ensures
            Self::wrote(old(self), final(self), "key_sprint"@, Seq::empty(), r),
    {
        self.expand_write("key_sprint")
    }

    /// Writes the capability `key_sredo`.
    pub fn key_sredo(&mut self) -> (r: Result<(), CapabilityError>)
        ensures
            Self::wrote(old(self), final(self), "key_sredo"@, Seq::empty(), r),
    {
        self.expand_write("key_sredo")
    }

    /// Writes the capability `key_sreplace`.
    pub fn key_sreplace(&mut self) -> (r: Result<(), CapabilityError>)
        ensures
            Self::wrote(old(self), final(self), "key_sreplace"@, Seq::empty(), r),
    {
        self.expand_write("key_sreplace")
    }

    /// Writes the capability `key_sright`.
    pub fn key_sright(&mut self) -> (r: Result<(), CapabilityError>)
        ensures
            Self::wrote(old(self), final(self), "key_sright"@, Seq::empty(), r),
    {
        self.expand_write("key_sright")
    }

    /// Writes the capability `key_srsume`.
    pub fn key_srsume(&mut self) -> (r: Result<(), CapabilityError>)
        ensures
            Self::wrote(old(self), final(self), "key_srsume"@, Seq::empty(), r),
    {
        self.expand_write("key_srsume")
    }

    /// Writes the capability `key_ssave`.
    pub fn key_ssave(&mut self) -> (r: Result<(), CapabilityError>)
        ensures
            Self::wrote(old(self), final(self), "key_ssave"@, Seq::empty(), r),
    {
        self.expand_write("key_ssave")
    }

    /// Writes the capability `key_ssuspend`.
    pub fn key_ssuspend(&mut self) -> (r: Result<(), CapabilityError>)
        ensures
            Self::wrote(old(self), final(self), "key_ssuspend"@, Seq::empty(), r),
    {
        self.expand_write("key_ssuspend")
    }

    /// Writes the capability `key_sundo`.
    pub fn key_sundo(&mut self) -> (r: Result<(), CapabilityError>)
        ensures
            Self::wrote(old(self), final(self), "key_sundo"@, Seq::empty(), r),
    {
        self.expand_write("key_sundo")
    }

    /// Writes the capability `req_for_input`.
    pub fn req_for_input(&mut self) -> (r: Result<(), CapabilityError>)
        ensures
            Self::wrote(old(self), final(self), "req_for_input"@, Seq::empty(), r),
    {
        self.expand_write("req_for_input")
    }

    /// Writes the capability `key_f11`.
    pub fn key_f11(&mut self) -> (r: Result<(), CapabilityError>)
        ensures
            Self::wrote(old(self), final(self), "key_f11"@, Seq::empty(), r),
    {
        self.expand_write("key_f11")
    }

    /// Writes the capability `key_f12`.
    pub fn key_f12(&mut self) -> (r: Result<(), CapabilityError>)
        ensures
            Self::wrote(old(self), final(self), "key_f12"@, Seq::empty(), r),
    {
        self.expand_write("key_f12")
    }

    /// Writes the capability `key_f13`.
    pub fn key_f13(&mut self) -> (r: Result<(), CapabilityError>)
        ensures
            Self::wrote(old(self), final(self), "key_f13"@, Seq::empty(), r),
    {
        self.expand_write("key_f13")
    }

    /// Writes the capability `key_f14`.
    pub fn key_f14(&mut self) -> (r: Result<(), CapabilityError>)
        ensures
            Self::wrote(old(self), final(self), "key_f14"@, Seq::empty(), r),
    {
        self.expand_write("key_f14")
    }

    /// Writes the capability `key_f15`.
    pub fn key_f15(&mut self) -> (r: Result<(), CapabilityError>)
        ensures
            Self::wrote(old(self), final(self), "key_f15"@, Seq::empty(), r),
    {
        self.expand_write("key_f15")
    }

    /// Writes the capability `key_f16`.
    pub fn key_f16(&mut self) -> (r: Result<(), CapabilityError>)
        ensures
            Self::wrote(old(self), final(self), "key_f16"@, Seq::empty(), r),
    {
        self.expand_write("key_f16")
    }

    /// Writes the capability `key_f17`.
    pub fn key_f17(&mut self) -> (r: Result<(), CapabilityError>)
        ensures
            Self::wrote(old(self), final(self), "key_f17"@, Seq::empty(), r),
    {
        self.expand_write("key_f17")
    }

    /// Writes the capability `key_f18`.
    pub fn key_f18(&mut self) -> (r: Result<(), CapabilityError>)
        ensures
            Self::wrote(old(self), final(self), "key_f18"@, Seq::empty(), r),
    {
        self.expand_write("key_f18")
    }

    /// Writes the capability `key_f19`.
    pub fn key_f19(&mut self) -> (r: Result<(), CapabilityError>)
        ensures
            Self::wrote(old(self), final(self), "key_f19"@, Seq::empty(), r),
    {
        self.expand_write("key_f19")
    }

    /// Writes the capability `key_f20`.
    pub fn key_f20(&mut self) -> (r: Result<(), CapabilityError>)
        ensures
            Self::wrote(old(self), final(self), "key_f20"@, Seq::empty(), r),
    {
        self.expand_write("key_f20")
    }

    /// Writes the capability `key_f21`.
    pub fn key_f21(&mut self) -> (r: Result<(), CapabilityError>)
        ensures
            Self::wrote(old(self), final(self), "key_f21"@, Seq::empty(), r),
    {
        self.expand_write("key_f21")
    }

    /// Writes the capability `key_f22`.
    pub fn key_f22(&mut self) -> (r: Result<(), CapabilityError>)
        ensures
            Self::wrote(old(self), final(self), "key_f22"@, Seq::empty(), r),
    {
        self.expand_write("key_f22")
    }

    /// Writes the capability `key_f23`.
    pub fn key_f23(&mut self) -> (r: Result<(), CapabilityError>)
        ensures
            Self::wrote(old(self), final(self), "key_f23"@, Seq::empty(), r),
    {
        self.expand_write("key_f23")
    }

    /// Writes the capability `key_f24`.
    pub fn key_f24(&mut self) -> (r: Result<(), CapabilityError>)
        ensures
            Self::wrote(old(self), final(self), "key_f24"@, Seq::empty(), r),
    {
        self.expand_write("key_f24")
    }

    /// Writes the capability `key_f25`.
    pub fn key_f25(&mut self) -> (r: Result<(), CapabilityError>)
        ensures
            Self::wrote(old(self), final(self), "key_f25"@, Seq::empty(), r),
    {
        self.expand_write("key_f25")
    }

    /// Writes the capability `key_f26`.
    pub fn key_f26(&mut self) -> (r: Result<(), CapabilityError>)
        ensures
            Self::wrote(old(self), final(self), "key_f26"@, Seq::empty(), r),
    {
        self.expand_write("key_f26")
    }

    /// Writes the capability `key_f27`.
    pub fn key_f27(&mut self) -> (r: Result<(), CapabilityError>)
        ensures
            Self::wrote(old(self), final(self), "key_f27"@, Seq::empty(), r),
    {
        self.expand_write("key_f27")
    }

    /// Writes the capability `key_f28`.
    pub fn key_f28(&mut self) -> (r: Result<(), CapabilityError>)
        ensures
            Self::wrote(old(self), final(self), "key_f28"@, Seq::empty(), r),
    {
        self.expand_write("key_f28")
    }

    /// Writes the capability `key_f29`.
    pub fn key_f29(&mut self) -> (r: Result<(), CapabilityError>)
        ensures
            Self::wrote(old(self), final(self), "key_f29"@, Seq::empty(), r),
    {
        self.expand_write("key_f29")
    }

    /// Writes the capability `key_f30`.
    pub fn key_f30(&mut self) -> (r: Result<(), CapabilityError>)
        ensures
            Self::wrote(old(self), final(self), "key_f30"@, Seq::empty(), r),
    {
        self.expand_write("key_f30")
    }

    /// Writes the capability `key_f31`.
    pub fn key_f31(&mut self) -> (r: Result<(), CapabilityError>)
        ensures
            Self::wrote(old(self), final(self), "key_f31"@, Seq::empty(), r),
    {
        self.expand_write("key_f31")
    }

    /// Writes the capability `key_f32`.
    pub fn key_f32(&mut self) -> (r: Result<(), CapabilityError>)
        ensures
            Self::wrote(old(self), final(self), "key_f32"@, Seq::empty(), r),
    {
        self.expand_write("key_f32")
    }

    /// Writes the capability `key_f33`.
    pub fn key_f33(&mut self) -> (r: Result<(), CapabilityError>)
        ensures
            Self::wrote(old(self), final(self), "key_f33"@, Seq::empty(), r),
    {
        self.expand_write("key_f33")
    }

    /// Writes the capability `key_f34`.
    pub fn key_f34(&mut self) -> (r: Result<(), CapabilityError>)
        ensures
            Self::wrote(old(self), final(self), "key_f34"@, Seq::empty(), r),
    {
        self.expand_write("key_f34")
    }

    /// Writes the capability `key_f35`.
    pub fn key_f35(&mut self) -> (r: Result<(), CapabilityError>)
        ensures
            Self::wrote(old(self), final(self), "key_f35"@, Seq::empty(), r),
    {
        self.expand_write("key_f35")
    }

    /// Writes the capability `key_f36`.
    pub fn key_f36(&mut self) -> (r: Result<(), CapabilityError>)
        ensures
            Self::wrote(old(self), final(self), "key_f36"@, Seq::empty(), r),
    {
        self.expand_write("key_f36")
    }

    /// Writes the capability `key_f37`.
    pub fn key_f37(&mut self) -> (r: Result<(), CapabilityError>)
        ensures
            Self::wrote(old(self), final(self), "key_f37"@, Seq::empty(), r),
    {
        self.expand_write("key_f37")
    }

    /// Writes the capability `key_f38`.
    pub fn key_f38(&mut self) -> (r: Result<(), CapabilityError>)
        ensures
            Self::wrote(old(self), final(self), "key_f38"@, Seq::empty(), r),
    {
        self.expand_write("key_f38")
    }

    /// Writes the capability `key_f39`.
    pub fn key_f39(&mut self) -> (r: Result<(), CapabilityError>)
        ensures
            Self::wrote(old(self), final(self), "key_f39"@, Seq::empty(), r),
    {
        self.expand_write("key_f39")
    }

    /// Writes the capability `key_f40`.
    pub fn key_f40(&mut self) -> (r: Result<(), CapabilityError>)
        ensures
            Self::wrote(old(self), final(self), "key_f40"@, Seq::empty(), r),
    {
        self.expand_write("key_f40")
    }

    /// Writes the capability `key_f41`.
    pub fn key_f41(&mut self) -> (r: Result<(), CapabilityError>)
        ensures
            Self::wrote(old(self), final(self), "key_f41"@, Seq::empty(), r),
    {
        self.expand_write("key_f41")
    }

    /// Writes the capability `key_f42`.
    pub fn key_f42(&mut self) -> (r: Result<(), CapabilityError>)
        ensures
            Self::wrote(old(self), final(self), "key_f42"@, Seq::empty(), r),
    {
        self.expand_write("key_f42")
    }

    /// Writes the capability `key_f43`.
    pub fn key_f43(&mut self) -> (r: Result<(), CapabilityError>)
        ensures
            Self::wrote(old(self), final(self), "key_f43"@, Seq::empty(), r),
    {
        self.expand_write("key_f43")
    }

    /// Writes the capability `key_f44`.
    pub fn key_f44(&mut self) -> (r: Result<(), CapabilityError>)
        ensures
            Self::wrote(old(self), final(self), "key_f44"@, Seq::empty(), r),
    {
        self.expand_write("key_f44")
    }

    /// Writes the capability `key_f45`.
    pub fn key_f45(&mut self) -> (r: Result<(), CapabilityError>)
        ensures
            Self::wrote(old(self), final(self), "key_f45"@, Seq::empty(), r),
    {
        self.expand_write("key_f45")
    }

    /// Writes the capability `key_f46`.
    pub fn key_f46(&mut self) -> (r: Result<(), CapabilityError>)
        ensures
            Self::wrote(old(self), final(self), "key_f46"@, Seq::empty(), r),
    {
        self.expand_write("key_f46")
    }

    /// Writes the capability `key_f47`.
    pub fn key_f47(&mut self) -> (r: Result<(), CapabilityError>)
        ensures
            Self::wrote(old(self), final(self), "key_f47"@, Seq::empty(), r),
    {
        self.expand_write("key_f47")
    }

    /// Writes the capability `key_f48`.
    pub fn key_f48(&mut self) -> (r: Result<(), CapabilityError>)
        ensures
            Self::wrote(old(self), final(self), "key_f48"@, Seq::empty(), r),
    {
        self.expand_write("key_f48")
    }

    /// Writes the capability `key_f49`.
    pub fn key_f49(&mut self) -> (r: Result<(), CapabilityError>)
        ensures
            Self::wrote(old(self), final(self), "key_f49"@, Seq::empty(), r),
    {
        self.expand_write("key_f49")
    }

    /// Writes the capability `key_f50`.
    pub fn key_f50(&mut self) -> (r: Result<(), CapabilityError>)
        ensures
            Self::wrote(old(self), final(self), "key_f50"@, Seq::empty(), r),
    {
        self.expand_write("key_f50")
    }

    /// Writes the capability `key_f51`.
    pub fn key_f51(&mut self) -> (r: Result<(), CapabilityError>)
        ensures
            Self::wrote(old(self), final(self), "key_f51"@, Seq::empty(), r),
    {
        self.expand_write("key_f51")
    }

    /// Writes the capability `key_f52`.
    pub fn key_f52(&mut self) -> (r: Result<(), CapabilityError>)
        ensures
            Self::wrote(old(self), final(self), "key_f52"@, Seq::empty(), r),
    {
        self.expand_write("key_f52")
    }

    /// Writes the capability `key_f53`.
    pub fn key_f53(&mut self) -> (r: Result<(), CapabilityError>)
        ensures
            Self::wrote(old(self), final(self), "key_f53"@, Seq::empty(), r),
    {
        self.expand_write("key_f53")
    }

    /// Writes the capability `key_f54`.
    pub fn key_f54(&mut self) -> (r: Result<(), CapabilityError>)
        ensures
            Self::wrote(old(self), final(self), "key_f54"@, Seq::empty(), r),
    {
        self.expand_write("key_f54")
    }

    /// Writes the capability `key_f55`.
    pub fn key_f55(&mut self) -> (r: Result<(), CapabilityError>)
        ensures
            Self::wrote(old(self), final(self), "key_f55"@, Seq::empty(), r),
    {
        self.expand_write("key_f55")
    }

    /// Writes the capability `key_f56`.
    pub fn key_f56(&mut self) -> (r: Result<(), CapabilityError>)
        ensures
            Self::wrote(old(self), final(self), "key_f56"@, Seq::empty(), r),
    {
        self.expand_write("key_f56")
    }

    /// Writes the capability `key_f57`.
    pub fn key_f57(&mut self) -> (r: Result<(), CapabilityError>)
        ensures
            Self::wrote(old(self), final(self), "key_f57"@, Seq::empty(), r),
    {
        self.expand_write("key_f57")
    }

    /// Writes the capability `key_f58`.
    pub fn key_f58(&mut self) -> (r: Result<(), CapabilityError>)
        ensures
            Self::wrote(old(self), final(self), "key_f58"@, Seq::empty(), r),
    {
        self.expand_write("key_f58")
    }

    /// Writes the capability `key_f59`.
    pub fn key_f59(&mut self) -> (r: Result<(), CapabilityError>)
        ensures
            Self::wrote(old(self), final(self), "key_f59"@, Seq::empty(), r),
    {
        self.expand_write("key_f59")
    }

    /// Writes the capability `key_f60`.
    pub fn key_f60(&mut self) -> (r: Result<(), CapabilityError>)
        ensures
            Self::wrote(old(self), final(self), "key_f60"@, Seq::empty(), r),
    {
        self.expand_write("key_f60")
    }

    /// Writes the capability `key_f61`.
    pub fn key_f61(&mut self) -> (r: Result<(), CapabilityError>)
        ensures
            Self::wrote(old(self), final(self), "key_f61"@, Seq::empty(), r),
    {
        self.expand_write("key_f61")
    }

    /// Writes the capability `key_f62`.
    pub fn key_f62(&mut self) -> (r: Result<(), CapabilityError>)
        ensures
            Self::wrote(old(self), final(self), "key_f62"@, Seq::empty(), r),
    {
        self.expand_write("key_f62")
    }

    /// Writes the capability `key_f63`.
    pub fn key_f63(&mut self) -> (r: Result<(), CapabilityError>)
        ensures
            Self::wrote(old(self), final(self), "key_f63"@, Seq::empty(), r),
    {
        self.expand_write("key_f63")
    }

    /// Writes the capability `clr_bol`.
    pub fn clr_bol(&mut self) -> (r: Result<(), CapabilityError>)
        ensures
            Self::wrote(old(self), final(self), "clr_bol"@, Seq::empty(), r),
    {
        self.expand_write("clr_bol")
    }

    /// Writes the capability `clear_margins`.
    pub fn clear_margins(&mut self) -> (r: Result<(), CapabilityError>)
        ensures
            Self::wrote(old(self), final(self), "clear_margins"@, Seq::empty(), r),
    {
        self.expand_write("clear_margins")
    }

    /// Writes the capability `set_left_margin`.
    pub fn set_left_margin(&mut self) -> (r: Result<(), CapabilityError>)
        ensures
            Self::wrote(old(self), final(self), "set_left_margin"@, Seq::empty(), r),
    {
        self.expand_write("set_left_margin")
    }

    /// Writes the capability `set_right_margin`.
    pub fn set_right_margin(&mut self) -> (r: Result<(), CapabilityError>)
        ensures
            Self::wrote(old(self), final(self), "set_right_margin"@, Seq::empty(), r),
    {
        self.expand_write("set_right_margin")
    }

    /// Writes the capability `label_format`.
    pub fn label_format(&mut self) -> (r: Result<(), CapabilityError>)
        ensures
            Self::wrote(old(self), final(self), "label_format"@, Seq::empty(), r),
    {
        self.expand_write("label_format")
    }

    /// Writes the capability `set_clock`.
    pub fn set_clock(&mut self) -> (r: Result<(), CapabilityError>)
        ensures
            Self::wrote(old(self), final(self), "set_clock"@, Seq::empty(), r),
    {
        self.expand_write("set_clock")
    }

    /// Writes the capability `display_clock`.
    pub fn display_clock(&mut self) -> (r: Result<(), CapabilityError>)
        ensures
            Self::wrote(old(self), final(self), "display_clock"@, Seq::empty(), r),
    {
        self.expand_write("display_clock")
    }

    /// Writes the capability `remove_clock`.
    pub fn remove_clock(&mut self) -> (r: Result<(), CapabilityError>)
        ensures
            Self::wrote(old(self), final(self), "remove_clock"@, Seq::empty(), r),
    {
        self.expand_write("remove_clock")
    }

    /// Writes the capability `create_window`.
    pub fn create_window(&mut self) -> (r: Result<(), CapabilityError>)
        ensures
            Self::wrote(old(self), final(self), "create_window"@, Seq::empty(), r),
    {
        self.expand_write("create_window")
    }

    /// Writes the capability `goto_window`.
    pub fn goto_window(&mut self) -> (r: Result<(), CapabilityError>)
        ensures
            Self::wrote(old(self), final(self), "goto_window"@, Seq::empty(), r),
    {
        self.expand_write("goto_window")
    }

    /// Writes the capability `hangup`.
    pub fn hangup(&mut self) -> (r: Result<(), CapabilityError>)
        ensures
            Self::wrote(old(self), final(self), "hangup"@, Seq::empty(), r),
    {
        self.expand_write("hangup")
    }

    /// Writes the capability `dial_phone`.
    pub fn dial_phone(&mut self) -> (r: Result<(), CapabilityError>)
        ensures
            Self::wrote(old(self), final(self), "dial_phone"@, Seq::empty(), r),
    {
        self.expand_write("dial_phone")
    }

    /// Writes the capability `quick_dial`.
    pub fn quick_dial(&mut self) -> (r: Result<(), CapabilityError>)
        ensures
            Self::wrote(old(self), final(self), "quick_dial"@, Seq::empty(), r),
    {
        self.expand_write("quick_dial")
    }

    /// Writes the capability `tone`.
    pub fn tone(&mut self) -> (r: Result<(), CapabilityError>)
        ensures
            Self::wrote(old(self), final(self), "tone"@, Seq::empty(), r),
    {
        self.expand_write("tone")
    }

    /// Writes the capability `pulse`.
    pub fn pulse(&mut self) -> (r: Result<(), CapabilityError>)
        ensures
            Self::wrote(old(self), final(self), "pulse"@, Seq::empty(), r),
    {
        self.expand_write("pulse")
    }

    /// Writes the capability `flash_hook`.
    pub fn flash_hook(&mut self) -> (r: Result<(), CapabilityError>)
        ensures
            Self::wrote(old(self), final(self), "flash_hook"@, Seq::empty(), r),
    {
        self.expand_write("flash_hook")
    }

    /// Writes the capability `fixed_pause`.
    pub fn fixed_pause(&mut self) -> (r: Result<(), CapabilityError>)
        ensures
            Self::wrote(old(self), final(self), "fixed_pause"@, Seq::empty(), r),
    {
        self.expand_write("fixed_pause")
    }

    /// Writes the capability `wait_tone`.
    pub fn wait_tone(&mut self) -> (r: Result<(), CapabilityError>)
        ensures
            Self::wrote(old(self), final(self), "wait_tone"@, Seq::empty(), r),
    {
        self.expand_write("wait_tone")
    }

    /// Writes the capability `user0`.
    pub fn user0(&mut self) -> (r: Result<(), CapabilityError>)
        ensures
            Self::wrote(old(self), final(self), "user0"@, Seq::empty(), r),
    {
        self.expand_write("user0")
    }

    /// Writes the capability `user1`.
    pub fn user1(&mut self) -> (r: Result<(), CapabilityError>)
        ensures
            Self::wrote(old(self), final(self), "user1"@, Seq::empty(), r),
    {
        self.expand_write("user1")
    }

    /// Writes the capability `user2`.
    pub fn user2(&mut self) -> (r: Result<(), CapabilityError>)
        ensures
            Self::wrote(old(self), final(self), "user2"@, Seq::empty(), r),
    {
        self.expand_write("user2")
    }

    /// Writes the capability `user3`.
    pub fn user3(&mut self) -> (r: Result<(), CapabilityError>)
        ensures
            Self::wrote(old(self), final(self), "user3"@, Seq::empty(), r),
    {
        self.expand_write("user3")
    }

    /// Writes the capability `user4`.
    pub fn user4(&mut self) -> (r: Result<(), CapabilityError>)
        ensures
            Self::wrote(old(self), final(self), "user4"@, Seq::empty(), r),
    {
        self.expand_write("user4")
    }

    /// Writes the capability `user5`.
    pub fn user5(&mut self) -> (r: Result<(), CapabilityError>)
        ensures
            Self::wrote(old(self), final(self), "user5"@, Seq::empty(), r),
    {
        self.expand_write("user5")
    }

    /// Writes the capability `user6`.
    pub fn user6(&mut self) -> (r: Result<(), CapabilityError>)
        ensures
            Self::wrote(old(self), final(self), "user6"@, Seq::empty(), r),
    {
        self.expand_write("user6")
    }

    /// Writes the capability `user7`.
    pub fn user7(&mut self) -> (r: Result<(), CapabilityError>)
        ensures
            Self::wrote(old(self), final(self), "user7"@, Seq::empty(), r),
    {
        self.expand_write("user7")
    }

    /// Writes the capability `user8`.
    pub fn user8(&mut self) -> (r: Result<(), CapabilityError>)
        ensures
            Self::wrote(old(self), final(self), "user8"@, Seq::empty(), r),
    {
        self.expand_write("user8")
    }

    /// Writes the capability `user9`.
    pub fn user9(&mut self) -> (r: Result<(), CapabilityError>)
        ensures
            Self::wrote(old(self), final(self), "user9"@, Seq::empty(), r),
    {
        self.expand_write("user9")
    }

    /// Writes the capability `orig_pair`.
    pub fn orig_pair(&mut self) -> (r: Result<(), CapabilityError>)
        ensures
            Self::wrote(old(self), final(self), "orig_pair"@, Seq::empty(), r),
    {
        self.expand_write("orig_pair")
    }

    /// Writes the capability `orig_colors`.
    pub fn orig_colors(&mut self) -> (r: Result<(), CapabilityError>)
        ensures
            Self::wrote(old(self), final(self), "orig_colors"@, Seq::empty(), r),
    {
        self.expand_write("orig_colors")
    }

    /// Writes the capability `initialize_color`.
    pub fn initialize_color(&mut self) -> (r: Result<(), CapabilityError>)
        ensures
            Self::wrote(old(self), final(self), "initialize_color"@, Seq::empty(), r),
    {
        self.expand_write("initialize_color")
    }

    /// Writes the capability `initialize_pair`.
    pub fn initialize_pair(&mut self) -> (r: Result<(), CapabilityError>)
        ensures
            Self::wrote(old(self), final(self), "initialize_pair"@, Seq::empty(), r),
    {
        self.expand_write("initialize_pair")
    }

    /// Writes the capability `set_color_pair`.
    pub fn set_color_pair(&mut self) -> (r: Result<(), CapabilityError>)
        ensures
            Self::wrote(old(self), final(self), "set_color_pair"@, Seq::empty(), r),
    {
        self.expand_write("set_color_pair")
    }

    /// Writes the capability `change_char_pitch`.
    pub fn change_char_pitch(&mut self) -> (r: Result<(), CapabilityError>)
        ensures
            Self::wrote(old(self), final(self), "change_char_pitch"@, Seq::empty(), r),
    {
        self.expand_write("change_char_pitch")
    }

    /// Writes the capability `change_line_pitch`.
    pub fn change_line_pitch(&mut self) -> (r: Result<(), CapabilityError>)
        ensures
            Self::wrote(old(self), final(self), "change_line_pitch"@, Seq::empty(), r),
    {
        self.expand_write("change_line_pitch")
    }

    /// Writes the capability `change_res_horz`.
    pub fn change_res_horz(&mut self) -> (r: Result<(), CapabilityError>)
        ensures
            Self::wrote(old(self), final(self), "change_res_horz"@, Seq::empty(), r),
    {
        self.expand_write("change_res_horz")
    }

    /// Writes the capability `change_res_vert`.
    pub fn change_res_vert(&mut self) -> (r: Result<(), CapabilityError>)
        ensures
            Self::wrote(old(self), final(self), "change_res_vert"@, Seq::empty(), r),
    {
        self.expand_write("change_res_vert")
    }

    /// Writes the capability `define_char`.
    pub fn define_char(&mut self) -> (r: Result<(), CapabilityError>)
        ensures
            Self::wrote(old(self), final(self), "define_char"@, Seq::empty(), r),
    {
        self.expand_write("define_char")
    }

    /// Writes the capability `enter_doublewide_mode`.
    pub fn enter_doublewide_mode(&mut self) -> (r: Result<(), CapabilityError>)
        ensures
            Self::wrote(old(self), final(self), "enter_doublewide_mode"@, Seq::empty(), r),
    {
        self.expand_write("enter_doublewide_mode")
    }

    /// Writes the capability `enter_draft_quality`.
    pub fn enter_draft_quality(&mut self) -> (r: Result<(), CapabilityError>)
        ensures
            Self::wrote(old(self), final(self), "enter_draft_quality"@, Seq::empty(), r),
    {
        self.expand_write("enter_draft_quality")
    }

    /// Writes the capability `enter_italics_mode`.
    pub fn enter_italics_mode(&mut self) -> (r: Result<(), CapabilityError>)
        ensures
            Self::wrote(old(self), final(self), "enter_italics_mode"@, Seq::empty(), r),
    {
        self.expand_write("enter_italics_mode")
    }

    /// Writes the capability `enter_leftward_mode`.
    pub fn enter_leftward_mode(&mut self) -> (r: Result<(), CapabilityError>)
        ensures
            Self::wrote(old(self), final(self), "enter_leftward_mode"@, Seq::empty(), r),
    {
        self.expand_write("enter_leftward_mode")
    }

    /// Writes the capability `enter_micro_mode`.
    pub fn enter_micro_mode(&mut self) -> (r: Result<(), CapabilityError>)
        ensures
            Self::wrote(old(self), final(self), "enter_micro_mode"@, Seq::empty(), r),
    {
        self.expand_write("enter_micro_mode")
    }

    /// Writes the capability `enter_near_letter_quality`.
    pub fn enter_near_letter_quality(&mut self) -> (r: Result<(), CapabilityError>)
        ensures
            Self::wrote(old(self), final(self), "enter_near_letter_quality"@, Seq::empty(), r),
    {
        self.expand_write("enter_near_letter_quality")
    }

    /// Writes the capability `enter_normal_quality`.
    pub fn enter_normal_quality(&mut self) -> (r: Result<(), CapabilityError>)
        ensures
            Self::wrote(old(self), final(self), "enter_normal_quality"@, Seq::empty(), r),
    {
        self.expand_write("enter_normal_quality")
    }

    /// Writes the capability `enter_shadow_mode`.
    pub fn enter_shadow_mode(&mut self) -> (r: Result<(), CapabilityError>)
        ensures
            Self::wrote(old(self), final(self), "enter_shadow_mode"@, Seq::empty(), r),
    {
        self.expand_write("enter_shadow_mode")
    }

    /// Writes the capability `enter_subscript_mode`.
    pub fn enter_subscript_mode(&mut self) -> (r: Result<(), CapabilityError>)
        ensures
            Self::wrote(old(self), final(self), "enter_subscript_mode"@, Seq::empty(), r),
    {
        self.expand_write("enter_subscript_mode")
    }

    /// Writes the capability `enter_superscript_mode`.
    pub fn enter_superscript_mode(&mut self) -> (r: Result<(), CapabilityError>)
        ensures
            Self::wrote(old(self), final(self), "enter_superscript_mode"@, Seq::empty(), r),
    {
        self.expand_write("enter_superscript_mode")
    }

    /// Writes the capability `enter_upward_mode`.
    pub fn enter_upward_mode(&mut self) -> (r: Result<(), CapabilityError>)
        ensures
            Self::wrote(old(self), final(self), "enter_upward_mode"@, Seq::empty(), r),
    {
        self.expand_write("enter_upward_mode")
    }

    /// Writes the capability `exit_doublewide_mode`.
    pub fn exit_doublewide_mode(&mut self) -> (r: Result<(), CapabilityError>)
        ensures
            Self::wrote(old(self), final(self), "exit_doublewide_mode"@, Seq::empty(), r),
    {
        self.expand_write("exit_doublewide_mode")
    }

    /// Writes the capability `exit_italics_mode`.
    pub fn exit_italics_mode(&mut self) -> (r: Result<(), CapabilityError>)
        ensures
            Self::wrote(old(self), final(self), "exit_italics_mode"@, Seq::empty(), r),
    {
        self.expand_write("exit_italics_mode")
    }

    /// Writes the capability `exit_leftward_mode`.
    pub fn exit_leftward_mode(&mut self) -> (r: Result<(), CapabilityError>)
        ensures
            Self::wrote(old(self), final(self), "exit_leftward_mode"@, Seq::empty(), r),
    {
        self.expand_write("exit_leftward_mode")
    }

    /// Writes the capability `exit_micro_mode`.
    pub fn exit_micro_mode(&mut self) -> (r: Result<(), CapabilityError>)
        ensures
            Self::wrote(old(self), final(self), "exit_micro_mode"@, Seq::empty(), r),
    {
        self.expand_write("exit_micro_mode")
    }

    /// Writes the capability `exit_shadow_mode`.
    pub fn exit_shadow_mode(&mut self) -> (r: Result<(), CapabilityError>)
        ensures
            Self::wrote(old(self), final(self), "exit_shadow_mode"@, Seq::empty(), r),
    {
        self.expand_write("exit_shadow_mode")
    }

    /// Writes the capability `exit_subscript_mode`.
    pub fn exit_subscript_mode(&mut self) -> (r: Result<(), CapabilityError>)
        ensures
            Self::wrote(old(self), final(self), "exit_subscript_mode"@, Seq::empty(), r),
    {
        self.expand_write("exit_subscript_mode")
    }

    /// Writes the capability `exit_superscript_mode`.
    pub fn exit_superscript_mode(&mut self) -> (r: Result<(), CapabilityError>)
        ensures
            Self::wrote(old(self), final(self), "exit_superscript_mode"@, Seq::empty(), r),
    {
        self.expand_write("exit_superscript_mode")
    }

    /// Writes the capability `exit_upward_mode`.
    pub fn exit_upward_mode(&mut self) -> (r: Result<(), CapabilityError>)
        ensures
            Self::wrote(old(self), final(self), "exit_upward_mode"@, Seq::empty(), r),
    {
        self.expand_write("exit_upward_mode")
    }

    /// Writes the capability `micro_column_address`.
    pub fn micro_column_address(&mut self) -> (r: Result<(), CapabilityError>)
        ensures
            Self::wrote(old(self), final(self), "micro_column_address"@, Seq::empty(), r),
    {
        self.expand_write("micro_column_address")
    }

    /// Writes the capability `micro_down`.
    pub fn micro_down(&mut self) -> (r: Result<(), CapabilityError>)
        ensures
            Self::wrote(old(self), final(self), "micro_down"@, Seq::empty(), r),
    {
        self.expand_write("micro_down")
    }

    /// Writes the capability `micro_left`.
    pub fn micro_left(&mut self) -> (r: Result<(), CapabilityError>)
        ensures
            Self::wrote(old(self), final(self), "micro_left"@, Seq::empty(), r),
    {
        self.expand_write("micro_left")
    }

    /// Writes the capability `micro_right`.
    pub fn micro_right(&mut self) -> (r: Result<(), CapabilityError>)
        ensures
            Self::wrote(old(self), final(self), "micro_right"@, Seq::empty(), r),
    {
        self.expand_write("micro_right")
    }

    /// Writes the capability `micro_row_address`.
    pub fn micro_row_address(&mut self) -> (r: Result<(), CapabilityError>)
        ensures
            Self::wrote(old(self), final(self), "micro_row_address"@, Seq::empty(), r),
    {
        self.expand_write("micro_row_address")
    }

    /// Writes the capability `micro_up`.
    pub fn micro_up(&mut self) -> (r: Result<(), CapabilityError>)
        ensures
            Self::wrote(old(self), final(self), "micro_up"@, Seq::empty(), r),
    {
        self.expand_write("micro_up")
    }

    /// Writes the capability `order_of_pins`.
    pub fn order_of_pins(&mut self) -> (r: Result<(), CapabilityError>)
        ensures
            Self::wrote(old(self), final(self), "order_of_pins"@, Seq::empty(), r),
    {
        self.expand_write("order_of_pins")
    }

    /// Writes the capability `select_char_set`.
    pub fn select_char_set(&mut self) -> (r: Result<(), CapabilityError>)
        ensures
            Self::wrote(old(self), final(self), "select_char_set"@, Seq::empty(), r),
    {
        self.expand_write("select_char_set")
    }

    /// Writes the capability `set_bottom_margin`.
    pub fn set_bottom_margin(&mut self) -> (r: Result<(), CapabilityError>)
        ensures
            Self::wrote(old(self), final(self), "set_bottom_margin"@, Seq::empty(), r),
    {
        self.expand_write("set_bottom_margin")
    }

    /// Writes the capability `set_bottom_margin_parm`.
    pub fn set_bottom_margin_parm(&mut self) -> (r: Result<(), CapabilityError>)
        ensures
            Self::wrote(old(self), final(self), "set_bottom_margin_parm"@, Seq::empty(), r),
    {
        self.expand_write("set_bottom_margin_parm")
    }

    /// Writes the capability `set_left_margin_parm`.
    pub fn set_left_margin_parm(&mut self) -> (r: Result<(), CapabilityError>)
        ensures
            Self::wrote(old(self), final(self), "set_left_margin_parm"@, Seq::empty(), r),
    {
        self.expand_write("set_left_margin_parm")
    }

    /// Writes the capability `set_right_margin_parm`.
    pub fn set_right_margin_parm(&mut self) -> (r: Result<(), CapabilityError>)
        ensures
            Self::wrote(old(self), final(self), "set_right_margin_parm"@, Seq::empty(), r),
    {
        self.expand_write("set_right_margin_parm")
    }

    /// Writes the capability `set_top_margin`.
    pub fn set_top_margin(&mut self) -> (r: Result<(), CapabilityError>)
        ensures
            Self::wrote(old(self), final(self), "set_top_margin"@, Seq::empty(), r),
    {
        self.expand_write("set_top_margin")
    }

    /// Writes the capability `set_top_margin_parm`.
    pub fn set_top_margin_parm(&mut self) -> (r: Result<(), CapabilityError>)
        ensures
            Self::wrote(old(self), final(self), "set_top_margin_parm"@, Seq::empty(), r),
    {
        self.expand_write("set_top_margin_parm")
    }

    /// Writes the capability `start_bit_image`.
    pub fn start_bit_image(&mut self) -> (r: Result<(), CapabilityError>)
        ensures
            Self::wrote(old(self), final(self), "start_bit_image"@, Seq::empty(), r),
    {
        self.expand_write("start_bit_image")
    }

    /// Writes the capability `start_char_set_def`.
    pub fn start_char_set_def(&mut self) -> (r: Result<(), CapabilityError>)
        ensures
            Self::wrote(old(self), final(self), "start_char_set_def"@, Seq::empty(), r),
    {
        self.expand_write("start_char_set_def")
    }

    /// Writes the capability `stop_bit_image`.
    pub fn stop_bit_image(&mut self) -> (r: Result<(), CapabilityError>)
        ensures
            Self::wrote(old(self), final(self), "stop_bit_image"@, Seq::empty(), r),
    {
        self.expand_write("stop_bit_image")
    }

    /// Writes the capability `stop_char_set_def`.
    pub fn stop_char_set_def(&mut self) -> (r: Result<(), CapabilityError>)
        ensures
            Self::wrote(old(self), final(self), "stop_char_set_def"@, Seq::empty(), r),
    {
        self.expand_write("stop_char_set_def")
    }

    /// Writes the capability `subscript_characters`.
    pub fn subscript_characters(&mut self) -> (r: Result<(), CapabilityError>)
        ensures
            Self::wrote(old(self), final(self), "subscript_characters"@, Seq::empty(), r),
    {
        self.expand_write("subscript_characters")
    }

    /// Writes the capability `superscript_characters`.
    pub fn superscript_characters(&mut self) -> (r: Result<(), CapabilityError>)
        ensures
            Self::wrote(old(self), final(self), "superscript_characters"@, Seq::empty(), r),
    {
        self.expand_write("superscript_characters")
    }

    /// Writes the capability `these_cause_cr`.
    pub fn these_cause_cr(&mut self) -> (r: Result<(), CapabilityError>)
        ensures
            Self::wrote(old(self), final(self), "these_cause_cr"@, Seq::empty(), r),
    {
        self.expand_write("these_cause_cr")
    }

    /// Writes the capability `zero_motion`.
    pub fn zero_motion(&mut self) -> (r: Result<(), CapabilityError>)
        ensures
            Self::wrote(old(self), final(self), "zero_motion"@, Seq::empty(), r),
    {
        self.expand_write("zero_motion")
    }

    /// Writes the capability `char_set_names`.
    pub fn char_set_names(&mut self) -> (r: Result<(), CapabilityError>)
        ensures
            Self::wrote(old(self), final(self), "char_set_names"@, Seq::empty(), r),
    {
        self.expand_write("char_set_names")
    }

    /// Writes the capability `key_mouse`.
    pub fn key_mouse(&mut self) -> (r: Result<(), CapabilityError>)
        ensures
            Self::wrote(old(self), final(self), "key_mouse"@, Seq::empty(), r),
    {
        self.expand_write("key_mouse")
    }

    /// Writes the capability `mouse_info`.
    pub fn mouse_info(&mut self) -> (r: Result<(), CapabilityError>)
        ensures
            Self::wrote(old(self), final(self), "mouse_info"@, Seq::empty(), r),
    {
        self.expand_write("mouse_info")
    }

    /// Writes the capability `req_mouse_pos`.
    pub fn req_mouse_pos(&mut self) -> (r: Result<(), CapabilityError>)
        ensures
            Self::wrote(old(self), final(self), "req_mouse_pos"@, Seq::empty(), r),
    {
        self.expand_write("req_mouse_pos")
    }

    /// Writes the capability `get_mouse`.
    pub fn get_mouse(&mut self) -> (r: Result<(), CapabilityError>)
        ensures
            Self::wrote(old(self), final(self), "get_mouse"@, Seq::empty(), r),
    {
        self.expand_write("get_mouse")
    }

    /// Writes the capability `pkey_plab`.
    pub fn pkey_plab(&mut self) -> (r: Result<(), CapabilityError>)
        ensures
            Self::wrote(old(self), final(self), "pkey_plab"@, Seq::empty(), r),
    {
        self.expand_write("pkey_plab")
    }

    /// Writes the capability `device_type`.
    pub fn device_type(&mut self) -> (r: Result<(), CapabilityError>)
        ensures
            Self::wrote(old(self), final(self), "device_type"@, Seq::empty(), r),
    {
        self.expand_write("device_type")
    }

    /// Writes the capability `code_set_init`.
    pub fn code_set_init(&mut self) -> (r: Result<(), CapabilityError>)
        ensures
            Self::wrote(old(self), final(self), "code_set_init"@, Seq::empty(), r),
    {
        self.expand_write("code_set_init")
    }

    /// Writes the capability `set0_des_seq`.
    pub fn set0_des_seq(&mut self) -> (r: Result<(), CapabilityError>)
        ensures
            Self::wrote(old(self), final(self), "set0_des_seq"@, Seq::empty(), r),
    {
        self.expand_write("set0_des_seq")
    }

    /// Writes the capability `set1_des_seq`.
    pub fn set1_des_seq(&mut self) -> (r: Result<(), CapabilityError>)
        ensures
            Self::wrote(old(self), final(self), "set1_des_seq"@, Seq::empty(), r),
    {
        self.expand_write("set1_des_seq")
    }

    /// Writes the capability `set2_des_seq`.
    pub fn set2_des_seq(&mut self) -> (r: Result<(), CapabilityError>)
        ensures
            Self::wrote(old(self), final(self), "set2_des_seq"@, Seq::empty(), r),
    {
        self.expand_write("set2_des_seq")
    }

    /// Writes the capability `set3_des_seq`.
    pub fn set3_des_seq(&mut self) -> (r: Result<(), CapabilityError>)
        ensures
            Self::wrote(old(self), final(self), "set3_des_seq"@, Seq::empty(), r),
    {
        self.expand_write("set3_des_seq")
    }

    /// Writes the capability `set_lr_margin`.
    pub fn set_lr_margin(&mut self) -> (r: Result<(), CapabilityError>)
        ensures
            Self::wrote(old(self), final(self), "set_lr_margin"@, Seq::empty(), r),
    {
        self.expand_write("set_lr_margin")
    }

    /// Writes the capability `set_tb_margin`.
    pub fn set_tb_margin(&mut self) -> (r: Result<(), CapabilityError>)
        ensures
            Self::wrote(old(self), final(self), "set_tb_margin"@, Seq::empty(), r),
    {
        self.expand_write("set_tb_margin")
    }

    /// Writes the capability `bit_image_repeat`.
    pub fn bit_image_repeat(&mut self) -> (r: Result<(), CapabilityError>)
        ensures
            Self::wrote(old(self), final(self), "bit_image_repeat"@, Seq::empty(), r),
    {
        self.expand_write("bit_image_repeat")
    }

    /// Writes the capability `bit_image_newline`.
    pub fn bit_image_newline(&mut self) -> (r: Result<(), CapabilityError>)
        ensures
            Self::wrote(old(self), final(self), "bit_image_newline"@, Seq::empty(), r),
    {
        self.expand_write("bit_image_newline")
    }

    /// Writes the capability `bit_image_carriage_return`.
    pub fn bit_image_carriage_return(&mut self) -> (r: Result<(), CapabilityError>)
        ensures
            Self::wrote(old(self), final(self), "bit_image_carriage_return"@, Seq::empty(), r),
    {
        self.expand_write("bit_image_carriage_return")
    }

    /// Writes the capability `color_names`.
    pub fn color_names(&mut self) -> (r: Result<(), CapabilityError>)
        ensures
            Self::wrote(old(self), final(self), "color_names"@, Seq::empty(), r),
    {
        self.expand_write("color_names")
    }

    /// Writes the capability `define_bit_image_region`.
    pub fn define_bit_image_region(&mut self) -> (r: Result<(), CapabilityError>)
        ensures
            Self::wrote(old(self), final(self), "define_bit_image_region"@, Seq::empty(), r),
    {
        self.expand_write("define_bit_image_region")
    }

    /// Writes the capability `end_bit_image_region`.
    pub fn end_bit_image_region(&mut self) -> (r: Result<(), CapabilityError>)
        ensures
            Self::wrote(old(self), final(self), "end_bit_image_region"@, Seq::empty(), r),
    {
        self.expand_write("end_bit_image_region")
    }

    /// Writes the capability `set_color_band`.
    pub fn set_color_band(&mut self) -> (r: Result<(), CapabilityError>)
        ensures
            Self::wrote(old(self), final(self), "set_color_band"@, Seq::empty(), r),
    {
        self.expand_write("set_color_band")
    }

    /// Writes the capability `set_page_length`.
    pub fn set_page_length(&mut self) -> (r: Result<(), CapabilityError>)
        ensures
            Self::wrote(old(self), final(self), "set_page_length"@, Seq::empty(), r),
    {
        self.expand_write("set_page_length")
    }

    /// Writes the capability `display_pc_char`.
    pub fn display_pc_char(&mut self) -> (r: Result<(), CapabilityError>)
        ensures
            Self::wrote(old(self), final(self), "display_pc_char"@, Seq::empty(), r),
    {
        self.expand_write("display_pc_char")
    }

    /// Writes the capability `enter_pc_charset_mode`.
    pub fn enter_pc_charset_mode(&mut self) -> (r: Result<(), CapabilityError>)
        ensures
            Self::wrote(old(self), final(self), "enter_pc_charset_mode"@, Seq::empty(), r),
    {
        self.expand_write("enter_pc_charset_mode")
    }

    /// Writes the capability `exit_pc_charset_mode`.
    pub fn exit_pc_charset_mode(&mut self) -> (r: Result<(), CapabilityError>)
        ensures
            Self::wrote(old(self), final(self), "exit_pc_charset_mode"@, Seq::empty(), r),
    {
        self.expand_write("exit_pc_charset_mode")
    }

    /// Writes the capability `enter_scancode_mode`.
    pub fn enter_scancode_mode(&mut self) -> (r: Result<(), CapabilityError>)
        ensures
            Self::wrote(old(self), final(self), "enter_scancode_mode"@, Seq::empty(), r),
    {
        self.expand_write("enter_scancode_mode")
    }

    /// Writes the capability `exit_scancode_mode`.
    pub fn exit_scancode_mode(&mut self) -> (r: Result<(), CapabilityError>)
        ensures
            Self::wrote(old(self), final(self), "exit_scancode_mode"@, Seq::empty(), r),
    {
        self.expand_write("exit_scancode_mode")
    }

    /// Writes the capability `pc_term_options`.
    pub fn pc_term_options(&mut self) -> (r: Result<(), CapabilityError>)
        ensures
            Self::wrote(old(self), final(self), "pc_term_options"@, Seq::empty(), r),
    {
        self.expand_write("pc_term_options")
    }

    /// Writes the capability `scancode_escape`.
    pub fn scancode_escape(&mut self) -> (r: Result<(), CapabilityError>)
        ensures
            Self::wrote(old(self), final(self), "scancode_escape"@, Seq::empty(), r),
    {
        self.expand_write("scancode_escape")
    }

    /// Writes the capability `alt_scancode_esc`.
    pub fn alt_scancode_esc(&mut self) -> (r: Result<(), CapabilityError>)
        ensures
            Self::wrote(old(self), final(self), "alt_scancode_esc"@, Seq::empty(), r),
    {
        self.expand_write("alt_scancode_esc")
    }

    /// Writes the capability `enter_horizontal_hl_mode`.
    pub fn enter_horizontal_hl_mode(&mut self) -> (r: Result<(), CapabilityError>)
        ensures
            Self::wrote(old(self), final(self), "enter_horizontal_hl_mode"@, Seq::empty(), r),
    {
        self.expand_write("enter_horizontal_hl_mode")
    }

    /// Writes the capability `enter_left_hl_mode`.
    pub fn enter_left_hl_mode(&mut self) -> (r: Result<(), CapabilityError>)
        ensures
            Self::wrote(old(self), final(self), "enter_left_hl_mode"@, Seq::empty(), r),
    {
        self.expand_write("enter_left_hl_mode")
    }

    /// Writes the capability `enter_low_hl_mode`.
    pub fn enter_low_hl_mode(&mut self) -> (r: Result<(), CapabilityError>)
        ensures
            Self::wrote(old(self), final(self), "enter_low_hl_mode"@, Seq::empty(), r),
    {
        self.expand_write("enter_low_hl_mode")
    }

    /// Writes the capability `enter_right_hl_mode`.
    pub fn enter_right_hl_mode(&mut self) -> (r: Result<(), CapabilityError>)
        ensures
            Self::wrote(old(self), final(self), "enter_right_hl_mode"@, Seq::empty(), r),
    {
        self.expand_write("enter_right_hl_mode")
    }

    /// Writes the capability `enter_top_hl_mode`.
    pub fn enter_top_hl_mode(&mut self) -> (r: Result<(), CapabilityError>)
        ensures
            Self::wrote(old(self), final(self), "enter_top_hl_mode"@, Seq::empty(), r),
    {
        self.expand_write("enter_top_hl_mode")
    }

    /// Writes the capability `enter_vertical_hl_mode`.
    pub fn enter_vertical_hl_mode(&mut self) -> (r: Result<(), CapabilityError>)
        ensures
            Self::wrote(old(self), final(self), "enter_vertical_hl_mode"@, Seq::empty(), r),
    {
        self.expand_write("enter_vertical_hl_mode")
    }

    /// Writes the capability `set_a_attributes`.
    pub fn set_a_attributes(&mut self) -> (r: Result<(), CapabilityError>)
        ensures
            Self::wrote(old(self), final(self), "set_a_attributes"@, Seq::empty(), r),
    {
        self.expand_write("set_a_attributes")
    }

    /// Writes the capability `set_pglen_inch`.
    pub fn set_pglen_inch(&mut self) -> (r: Result<(), CapabilityError>)
        ensures
            Self::wrote(old(self), final(self), "set_pglen_inch"@, Seq::empty(), r),
    {
        self.expand_write("set_pglen_inch")
    }

    /// Writes the capability `termcap_init2`.
    pub fn termcap_init2(&mut self) -> (r: Result<(), CapabilityError>)
        ensures
            Self::wrote(old(self), final(self), "termcap_init2"@, Seq::empty(), r),
    {
        self.expand_write("termcap_init2")
    }

    /// Writes the capability `termcap_reset`.
    pub fn termcap_reset(&mut self) -> (r: Result<(), CapabilityError>)
        ensures
            Self::wrote(old(self), final(self), "termcap_reset"@, Seq::empty(), r),
    {
        self.expand_write("termcap_reset")
    }

    /// Writes the capability `linefeed_if_not_lf`.
    pub fn linefeed_if_not_lf(&mut self) -> (r: Result<(), CapabilityError>)
        ensures
            Self::wrote(old(self), final(self), "linefeed_if_not_lf"@, Seq::empty(), r),
    {
        self.expand_write("linefeed_if_not_lf")
    }

    /// Writes the capability `backspace_if_not_bs`.
    pub fn backspace_if_not_bs(&mut self) -> (r: Result<(), CapabilityError>)
        ensures
            Self::wrote(old(self), final(self), "backspace_if_not_bs"@, Seq::empty(), r),
    {
        self.expand_write("backspace_if_not_bs")
    }

    /// Writes the capability `other_non_function_keys`.
    pub fn other_non_function_keys(&mut self) -> (r: Result<(), CapabilityError>)
        ensures
            Self::wrote(old(self), final(self), "other_non_function_keys"@, Seq::empty(), r),
    {
        self.expand_write("other_non_function_keys")
    }

    /// Writes the capability `arrow_key_map`.
    pub fn arrow_key_map(&mut self) -> (r: Result<(), CapabilityError>)
        ensures
            Self::wrote(old(self), final(self), "arrow_key_map"@, Seq::empty(), r),
    {
        self.expand_write("arrow_key_map")
    }

    /// Writes the capability `acs_ulcorner`.
    pub fn acs_ulcorner(&mut self) -> (r: Result<(), CapabilityError>)
        ensures
            Self::wrote(old(self), final(self), "acs_ulcorner"@, Seq::empty(), r),
    {
        self.expand_write("acs_ulcorner")
    }

    /// Writes the capability `acs_llcorner`.
    pub fn acs_llcorner(&mut self) -> (r: Result<(), CapabilityError>)
        ensures
            Self::wrote(old(self), final(self), "acs_llcorner"@, Seq::empty(), r),
    {
        self.expand_write("acs_llcorner")
    }

    /// Writes the capability `acs_urcorner`.
    pub fn acs_urcorner(&mut self) -> (r: Result<(), CapabilityError>)
        ensures
            Self::wrote(old(self), final(self), "acs_urcorner"@, Seq::empty(), r),
    {
        self.expand_write("acs_urcorner")
    }

    /// Writes the capability `acs_lrcorner`.
    pub fn acs_lrcorner(&mut self) -> (r: Result<(), CapabilityError>)
        ensures
            Self::wrote(old(self), final(self), "acs_lrcorner"@, Seq::empty(), r),
    {
        self.expand_write("acs_lrcorner")
    }

    /// Writes the capability `acs_ltee`.
    pub fn acs_ltee(&mut self) -> (r: Result<(), CapabilityError>)
        ensures
            Self::wrote(old(self), final(self), "acs_ltee"@, Seq::empty(), r),
    {
        self.expand_write("acs_ltee")
    }

    /// Writes the capability `acs_rtee`.
    pub fn acs_rtee(&mut self) -> (r: Result<(), CapabilityError>)
        ensures
            Self::wrote(old(self), final(self), "acs_rtee"@, Seq::empty(), r),
    {
        self.expand_write("acs_rtee")
    }

    /// Writes the capability `acs_btee`.
    pub fn acs_btee(&mut self) -> (r: Result<(), CapabilityError>)
        ensures
            Self::wrote(old(self), final(self), "acs_btee"@, Seq::empty(), r),
    {
        self.expand_write("acs_btee")
    }

    /// Writes the capability `acs_ttee`.
    pub fn acs_ttee(&mut self) -> (r: Result<(), CapabilityError>)
        ensures
            Self::wrote(old(self), final(self), "acs_ttee"@, Seq::empty(), r),
    {
        self.expand_write("acs_ttee")
    }

    /// Writes the capability `acs_hline`.
    pub fn acs_hline(&mut self) -> (r: Result<(), CapabilityError>)
        ensures
            Self::wrote(old(self), final(self), "acs_hline"@, Seq::empty(), r),
    {
        self.expand_write("acs_hline")
    }

    /// Writes the capability `acs_vline`.
    pub fn acs_vline(&mut self) -> (r: Result<(), CapabilityError>)
        ensures
            Self::wrote(old(self), final(self), "acs_vline"@, Seq::empty(), r),
    {
        self.expand_write("acs_vline")
    }

    /// Writes the capability `acs_plus`.
    pub fn acs_plus(&mut self) -> (r: Result<(), CapabilityError>)
        ensures
            Self::wrote(old(self), final(self), "acs_plus"@, Seq::empty(), r),
    {
        self.expand_write("acs_plus")
    }

    /// Writes the capability `memory_lock`.
    pub fn memory_lock(&mut self) -> (r: Result<(), CapabilityError>)
        ensures
            Self::wrote(old(self), final(self), "memory_lock"@, Seq::empty(), r),
    {
        self.expand_write("memory_lock")
    }

    /// Writes the capability `memory_unlock`.
    pub fn memory_unlock(&mut self) -> (r: Result<(), CapabilityError>)
        ensures
            Self::wrote(old(self), final(self), "memory_unlock"@, Seq::empty(), r),
    {
        self.expand_write("memory_unlock")
    }

    /// Writes the capability `box_chars_1`.
    pub fn box_chars_1(&mut self) -> (r: Result<(), CapabilityError>)
        ensures
            Self::wrote(old(self), final(self), "box_chars_1"@, Seq::empty(), r),
    {
        self.expand_write("box_chars_1")
    }

    /// Makes the lines from `top` to `bottom` the scroll region.
    pub fn change_scroll_region(&mut self, top: u32, bottom: u32) -> (r: Result<
        (),
        CapabilityError,
    >)
        ensures
            Self::wrote(
                old(self),
                final(self),
                "change_scroll_region"@,
                seq![parameter_of(top as int), parameter_of(bottom as int)],
                r,
            ),
    {
        let params: [i32; 2] = [u32_parameter(top), u32_parameter(bottom)];
        assert(params@ =~= seq![parameter_of(top as int), parameter_of(bottom as int)]);
        self.expand_write_with("change_scroll_region", params.as_slice())
    }

    /// Moves the cursor to the column `x` of its row.
    pub fn column_address(&mut self, x: u32) -> (r: Result<(), CapabilityError>)
        ensures
            Self::wrote(
                old(self),
                final(self),
                "column_address"@,
                seq![parameter_of(x as int)],
                r,
            ),
    {
        let params: [i32; 1] = [u32_parameter(x)];
        assert(params@ =~= seq![parameter_of(x as int)]);
        self.expand_write_with("column_address", params.as_slice())
    }

    /// Moves the cursor to the row `y` and the column `x`.
    pub fn cursor_address(&mut self, y: u32, x: u32) -> (r: Result<(), CapabilityError>)
        ensures
            Self::wrote(
                old(self),
                final(self),
                "cursor_address"@,
                seq![parameter_of(y as int), parameter_of(x as int)],
                r,
            ),
    {
        let params: [i32; 2] = [u32_parameter(y), u32_parameter(x)];
        assert(params@ =~= seq![parameter_of(y as int), parameter_of(x as int)]);
        self.expand_write_with("cursor_address", params.as_slice())
    }

    /// Erases `count` characters from the cursor on.
    pub fn erase_chars(&mut self, count: u32) -> (r: Result<(), CapabilityError>)
        ensures
            Self::wrote(
                old(self),
                final(self),
                "erase_chars"@,
                seq![parameter_of(count as int)],
                r,
            ),
    {
        let params: [i32; 1] = [u32_parameter(count)];
        assert(params@ =~= seq![parameter_of(count as int)]);
        self.expand_write_with("erase_chars", params.as_slice())
    }

    /// Deletes `count` characters.
    pub fn parm_dch(&mut self, count: u32) -> (r: Result<(), CapabilityError>)
        ensures
            Self::wrote(
                old(self),
                final(self),
                "parm_dch"@,
                seq![parameter_of(count as int)],
                r,
            ),
    {
        let params: [i32; 1] = [u32_parameter(count)];
        assert(params@ =~= seq![parameter_of(count as int)]);
        self.expand_write_with("parm_dch", params.as_slice())
    }

    /// Deletes `count` lines.
    pub fn parm_delete_line(&mut self, count: u32) -> (r: Result<(), CapabilityError>)
        ensures
            Self::wrote(
                old(self),
                final(self),
                "parm_delete_line"@,
                seq![parameter_of(count as int)],
                r,
            ),
    {
        let params: [i32; 1] = [u32_parameter(count)];
        assert(params@ =~= seq![parameter_of(count as int)]);
        self.expand_write_with("parm_delete_line", params.as_slice())
    }

    /// Moves the cursor down by `count` lines.
    pub fn parm_down_cursor(&mut self, count: u32) -> (r: Result<(), CapabilityError>)
        ensures
            Self::wrote(
                old(self),
                final(self),
                "parm_down_cursor"@,
                seq![parameter_of(count as int)],
                r,
            ),
    {
        let params: [i32; 1] = [u32_parameter(count)];
        assert(params@ =~= seq![parameter_of(count as int)]);
        self.expand_write_with("parm_down_cursor", params.as_slice())
    }

    /// Inserts `count` blank characters.
    pub fn parm_ich(&mut self, count: u32) -> (r: Result<(), CapabilityError>)
        ensures
            Self::wrote(
                old(self),
                final(self),
                "parm_ich"@,
                seq![parameter_of(count as int)],
                r,
            ),
    {
        let params: [i32; 1] = [u32_parameter(count)];
        assert(params@ =~= seq![parameter_of(count as int)]);
        self.expand_write_with("parm_ich", params.as_slice())
    }

    /// Scrolls forward by `count` lines.
    pub fn parm_index(&mut self, count: u32) -> (r: Result<(), CapabilityError>)
        ensures
            Self::wrote(
                old(self),
                final(self),
                "parm_index"@,
                seq![parameter_of(count as int)],
                r,
            ),
    {
        let params: [i32; 1] = [u32_parameter(count)];
        assert(params@ =~= seq![parameter_of(count as int)]);
        self.expand_write_with("parm_index", params.as_slice())
    }

    /// Inserts `count` blank lines.
    pub fn parm_insert_line(&mut self, count: u32) -> (r: Result<(), CapabilityError>)
        ensures
            Self::wrote(
                old(self),
                final(self),
                "parm_insert_line"@,
                seq![parameter_of(count as int)],
                r,
            ),
    {
        let params: [i32; 1] = [u32_parameter(count)];
        assert(params@ =~= seq![parameter_of(count as int)]);
        self.expand_write_with("parm_insert_line", params.as_slice())
    }

    /// Moves the cursor left by `count` columns.
    pub fn parm_left_cursor(&mut self, count: u32) -> (r: Result<(), CapabilityError>)
        ensures
            Self::wrote(
                old(self),
                final(self),
                "parm_left_cursor"@,
                seq![parameter_of(count as int)],
                r,
            ),
    {
        let params: [i32; 1] = [u32_parameter(count)];
        assert(params@ =~= seq![parameter_of(count as int)]);
        self.expand_write_with("parm_left_cursor", params.as_slice())
    }

    /// Moves the cursor right by `count` columns.
    pub fn parm_right_cursor(&mut self, count: u32) -> (r: Result<(), CapabilityError>)
        ensures
            Self::wrote(
                old(self),
                final(self),
                "parm_right_cursor"@,
                seq![parameter_of(count as int)],
                r,
            ),
    {
        let params: [i32; 1] = [u32_parameter(count)];
        assert(params@ =~= seq![parameter_of(count as int)]);
        self.expand_write_with("parm_right_cursor", params.as_slice())
    }

    /// Scrolls backward by `count` lines.
    pub fn parm_rindex(&mut self, count: u32) -> (r: Result<(), CapabilityError>)
        ensures
            Self::wrote(
                old(self),
                final(self),
                "parm_rindex"@,
                seq![parameter_of(count as int)],
                r,
            ),
    {
        let params: [i32; 1] = [u32_parameter(count)];
        assert(params@ =~= seq![parameter_of(count as int)]);
        self.expand_write_with("parm_rindex", params.as_slice())
    }

    /// Moves the cursor up by `count` lines.
    pub fn parm_up_cursor(&mut self, count: u32) -> (r: Result<(), CapabilityError>)
        ensures
            Self::wrote(
                old(self),
                final(self),
                "parm_up_cursor"@,
                seq![parameter_of(count as int)],
                r,
            ),
    {
        let params: [i32; 1] = [u32_parameter(count)];
        assert(params@ =~= seq![parameter_of(count as int)]);
        self.expand_write_with("parm_up_cursor", params.as_slice())
    }

    /// Moves down by `count` steps in micro mode.
    pub fn parm_down_micro(&mut self, count: u32) -> (r: Result<(), CapabilityError>)
        ensures
            Self::wrote(
                old(self),
                final(self),
                "parm_down_micro"@,
                seq![parameter_of(count as int)],
                r,
            ),
    {
        let params: [i32; 1] = [u32_parameter(count)];
        assert(params@ =~= seq![parameter_of(count as int)]);
        self.expand_write_with("parm_down_micro", params.as_slice())
    }

    /// Moves left by `count` steps in micro mode.
    pub fn parm_left_micro(&mut self, count: u32) -> (r: Result<(), CapabilityError>)
        ensures
            Self::wrote(
                old(self),
                final(self),
                "parm_left_micro"@,
                seq![parameter_of(count as int)],
                r,
            ),
    {
        let params: [i32; 1] = [u32_parameter(count)];
        assert(params@ =~= seq![parameter_of(count as int)]);
        self.expand_write_with("parm_left_micro", params.as_slice())
    }

    /// Moves right by `count` steps in micro mode.
    pub fn parm_right_micro(&mut self, count: u32) -> (r: Result<(), CapabilityError>)
        ensures
            Self::wrote(
                old(self),
                final(self),
                "parm_right_micro"@,
                seq![parameter_of(count as int)],
                r,
            ),
    {
        let params: [i32; 1] = [u32_parameter(count)];
        assert(params@ =~= seq![parameter_of(count as int)]);
        self.expand_write_with("parm_right_micro", params.as_slice())
    }

    /// Moves up by `count` steps in micro mode.
    pub fn parm_up_micro(&mut self, count: u32) -> (r: Result<(), CapabilityError>)
        ensures
            Self::wrote(
                old(self),
                final(self),
                "parm_up_micro"@,
                seq![parameter_of(count as int)],
                r,
            ),
    {
        let params: [i32; 1] = [u32_parameter(count)];
        assert(params@ =~= seq![parameter_of(count as int)]);
        self.expand_write_with("parm_up_micro", params.as_slice())
    }

    /// Moves the cursor to the row `y` of its column.
    pub fn row_address(&mut self, y: u32) -> (r: Result<(), CapabilityError>)
        ensures
            Self::wrote(
                old(self),
                final(self),
                "row_address"@,
                seq![parameter_of(y as int)],
                r,
            ),
    {
        let params: [i32; 1] = [u32_parameter(y)];
        assert(params@ =~= seq![parameter_of(y as int)]);
        self.expand_write_with("row_address", params.as_slice())
    }

    /// Sets all the attributes of the text at once.
    pub fn set_attributes(
        &mut self,
        standout: bool,
        underline: bool,
        reverse: bool,
        blink: bool,
        dim: bool,
        bold: bool,
        invisible: bool,
        protected: bool,
        alt_charset: bool,
    ) -> (r: Result<(), CapabilityError>)
        ensures
            Self::wrote(
                old(self),
                final(self),
                "set_attributes"@,
                seq![
                    flag_parameter(standout),
                    flag_parameter(underline),
                    flag_parameter(reverse),
                    flag_parameter(blink),
                    flag_parameter(dim),
                    flag_parameter(bold),
                    flag_parameter(invisible),
                    flag_parameter(protected),
                    flag_parameter(alt_charset),
                ],
                r,
            ),
    {
        let params: [i32; 9] = [
            bool_parameter(standout),
            bool_parameter(underline),
            bool_parameter(reverse),
            bool_parameter(blink),
            bool_parameter(dim),
            bool_parameter(bold),
            bool_parameter(invisible),
            bool_parameter(protected),
            bool_parameter(alt_charset),
        ];
        assert(params@ =~= seq![
                flag_parameter(standout),
                flag_parameter(underline),
                flag_parameter(reverse),
                flag_parameter(blink),
                flag_parameter(dim),
                flag_parameter(bold),
                flag_parameter(invisible),
                flag_parameter(protected),
                flag_parameter(alt_charset),
            ]);
        self.expand_write_with("set_attributes", params.as_slice())
    }

    /// Sets the foreground to the colour `color` of the ANSI palette.
    pub fn set_a_foreground(&mut self, color: u8) -> (r: Result<(), CapabilityError>)
        ensures
            Self::wrote(
                old(self),
                final(self),
                "set_a_foreground"@,
                seq![color as i32],
                r,
            ),
    {
        let params: [i32; 1] = [color as i32];
        assert(params@ =~= seq![color as i32]);
        self.expand_write_with("set_a_foreground", params.as_slice())
    }

    /// Sets the background to the colour `color` of the ANSI palette.
    pub fn set_a_background(&mut self, color: u8) -> (r: Result<(), CapabilityError>)
        ensures
            Self::wrote(
                old(self),
                final(self),
                "set_a_background"@,
                seq![color as i32],
                r,
            ),
    {
        let params: [i32; 1] = [color as i32];
        assert(params@ =~= seq![color as i32]);
        self.expand_write_with("set_a_background", params.as_slice())
    }

    /// Sets the foreground to the colour `color`.
    pub fn set_foreground(&mut self, color: u8) -> (r: Result<(), CapabilityError>)
        ensures
            Self::wrote(
                old(self),
                final(self),
                "set_foreground"@,
                seq![color as i32],
                r,
            ),
    {
        let params: [i32; 1] = [color as i32];
        assert(params@ =~= seq![color as i32]);
        self.expand_write_with("set_foreground", params.as_slice())
    }

    /// Sets the background to the colour `color`.
    pub fn set_background(&mut self, color: u8) -> (r: Result<(), CapabilityError>)
        ensures
            Self::wrote(
                old(self),
                final(self),
                "set_background"@,
                seq![color as i32],
                r,
            ),
    {
        let params: [i32; 1] = [color as i32];
        assert(params@ =~= seq![color as i32]);
        self.expand_write_with("set_background", params.as_slice())
    }
}

} // verus!
