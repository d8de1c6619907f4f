use vstd::prelude::*;
use crate::command::{Command, SeekMode};

verus! {

/// How far one arrow key press seeks, in seconds.
pub const ARROW_SEEK_SECONDS: i64 = 5;

/// The key text of the space bar.
pub open spec fn space_key() -> Seq<char> { seq![' '] }

/// Key texts of the right arrow: the macOS function-key code and the name.
pub open spec fn is_right_key(k: Seq<char>) -> bool {
    k == seq!['\u{f703}'] || k == seq!['A', 'r', 'r', 'o', 'w', 'R', 'i', 'g', 'h', 't']
}

/// Key texts of the left arrow: the macOS function-key code and the name.
pub open spec fn is_left_key(k: Seq<char>) -> bool {
    k == seq!['\u{f702}'] || k == seq!['A', 'r', 'r', 'o', 'w', 'L', 'e', 'f', 't']
}

/// Whether two strings hold the same characters.
pub fn same_text(a: &str, b: &str) -> (r: bool)
    ensures
        r == (a@ == b@),
{
    let n = a.unicode_len();
    if n != b.unicode_len() {
        return false;
    }
    let mut i: usize = 0;
    while i < n
        invariant
            n == a@.len(),
            n == b@.len(),
            i <= n,
            forall|j: int| 0 <= j < i ==> a@[j] == b@[j],
        decreases n - i,
    {
        if a.get_char(i) != b.get_char(i) {
            return false;
        }
        i = i + 1;
    }
    assert(a@ =~= b@);
    true
}

/// The command that a key press issues: space toggles pause, the right and left
/// arrows seek five seconds forward or back; other keys issue nothing.
pub fn key_command(key: &str) -> (r: Option<Command>)
    ensures
        key@ == space_key() ==> r == Some(Command::TogglePause),
        is_right_key(key@) ==> r == Some(Command::Seek { mode: SeekMode::Relative, seconds: 5 }),
        is_left_key(key@) ==> r == Some(Command::Seek { mode: SeekMode::Relative, seconds: -5i64 }),
        !(key@ == space_key() || is_right_key(key@) || is_left_key(key@)) ==> r is None,
{
    proof {
        reveal_strlit(" ");
        reveal_strlit("\u{f703}");
        reveal_strlit("ArrowRight");
        reveal_strlit("\u{f702}");
        reveal_strlit("ArrowLeft");
        assert(" "@ =~= space_key());
        assert("\u{f703}"@ =~= seq!['\u{f703}']);
        assert("ArrowRight"@ =~= seq!['A', 'r', 'r', 'o', 'w', 'R', 'i', 'g', 'h', 't']);
        assert("\u{f702}"@ =~= seq!['\u{f702}']);
        assert("ArrowLeft"@ =~= seq!['A', 'r', 'r', 'o', 'w', 'L', 'e', 'f', 't']);
        if is_right_key(key@) {
            if key@.len() == 1 {
                assert(key@[0] == '\u{f703}');
            } else {
                assert(key@.len() == 10);
            }
        }
        if is_left_key(key@) {
            if key@.len() == 1 {
                assert(key@[0] == '\u{f702}');
            } else {
                assert(key@.len() == 9);
            }
        }
    }
    if same_text(key, " ") {
        Some(Command::TogglePause)
    } else if same_text(key, "\u{f703}") || same_text(key, "ArrowRight") {
        Some(Command::Seek { mode: SeekMode::Relative, seconds: ARROW_SEEK_SECONDS })
    } else if same_text(key, "\u{f702}") || same_text(key, "ArrowLeft") {
        Some(Command::Seek { mode: SeekMode::Relative, seconds: -ARROW_SEEK_SECONDS })
    } else {
        None
    }
}

} // verus!
