use vstd::prelude::*;
use crate::text::{signed_decimal, signed_decimal_string};

verus! {

/// Whether a seek moves from the current position or to a given one.
#[derive(Clone, Copy, Debug, PartialEq, Eq, Structural)]
pub enum SeekMode {
    Relative,
    Absolute,
}

/// A command for the playback engine.
#[derive(Debug)]
pub enum Command {
    TogglePause,
    Seek { mode: SeekMode, seconds: i64 },
    Load { path: String },
}

pub open spec fn cycle_word() -> Seq<char> { seq!['c', 'y', 'c', 'l', 'e'] }
pub open spec fn pause_word() -> Seq<char> { seq!['p', 'a', 'u', 's', 'e'] }
pub open spec fn seek_word() -> Seq<char> { seq!['s', 'e', 'e', 'k'] }
pub open spec fn relative_word() -> Seq<char> { seq!['r', 'e', 'l', 'a', 't', 'i', 'v', 'e'] }
pub open spec fn absolute_word() -> Seq<char> { seq!['a', 'b', 's', 'o', 'l', 'u', 't', 'e'] }
pub open spec fn loadfile_word() -> Seq<char> { seq!['l', 'o', 'a', 'd', 'f', 'i', 'l', 'e'] }

/// The token sequence that the engine's command protocol takes for `c`.
pub open spec fn command_tokens(c: Command) -> Seq<Seq<char>> {
    match c {
        Command::TogglePause => seq![cycle_word(), pause_word()],
        Command::Seek { mode, seconds } => seq![
            seek_word(),
            signed_decimal(seconds as int),
            if mode == SeekMode::Relative { relative_word() } else { absolute_word() },
        ],
        Command::Load { path } => seq![loadfile_word(), path@],
    }
}

/// The views of a list of strings.
pub open spec fn strings_view(v: Seq<String>) -> Seq<Seq<char>> {
    v.map_values(|s: String| s@)
}

impl Command {
    /// The tokens to hand to the engine for this command.
    pub fn tokens(&self) -> (r: Vec<String>)
        ensures
            strings_view(r@) == command_tokens(*self),
    {
        proof {
            reveal_strlit("cycle");
            reveal_strlit("pause");
            reveal_strlit("seek");
            reveal_strlit("relative");
            reveal_strlit("absolute");
            reveal_strlit("loadfile");
            assert("cycle"@ =~= cycle_word());
            assert("pause"@ =~= pause_word());
            assert("seek"@ =~= seek_word());
            assert("relative"@ =~= relative_word());
            assert("absolute"@ =~= absolute_word());
            assert("loadfile"@ =~= loadfile_word());
        }
        let mut r: Vec<String> = Vec::new();
        match self {
            Command::TogglePause => {
                r.push(String::from_str("cycle"));
                r.push(String::from_str("pause"));
            },
            Command::Seek { mode, seconds } => {
                r.push(String::from_str("seek"));
                r.push(signed_decimal_string(*seconds));
                match mode {
                    SeekMode::Relative => r.push(String::from_str("relative")),
                    SeekMode::Absolute => r.push(String::from_str("absolute")),
                }
            },
            Command::Load { path } => {
                r.push(String::from_str("loadfile"));
                r.push(path.clone());
            },
        }
        assert(strings_view(r@) =~= command_tokens(*self));
        r
    }
}

} // verus!
