use vstd::prelude::*;
use vstd::string::*;
use crate::keys::Key;
use crate::text::{char_width, is_control, is_control_char, push_char};

verus! {

/// The first `k` characters of a text.
fn prefix_chars(s: &str, k: usize) -> (res: String)
    requires
        k <= s@.len(),
    ensures
        res@ == s@.take(k as int),
{
    let mut res = String::new();
    let mut i: usize = 0;
    while i < k
        invariant
            i <= k,
            k <= s@.len(),
            res@ == s@.take(i as int),
        decreases k - i,
    {
        let c = s.get_char(i);
        push_char(&mut res, c);
        i = i + 1;
        assert(res@ =~= s@.take(i as int));
    }
    res
}

/// A key pressed while a prompt waits for text: Backspace removes the last
/// character, a printable character is added, Enter ends the prompt, Esc
/// empties the answer and ends the prompt. Whether the prompt ended comes
/// back. Backspace removes one byte of the answer, so the answer's last
/// character must take one byte.
pub fn prompt_key(answer: &mut String, key: Key) -> (done: bool)
    requires
        key is Backspace && old(answer)@.len() > 0 ==> char_width(old(answer)@.last()) == 1,
    ensures
        done <==> (key is Esc || key == Key::Char('\n')),
        key is Backspace ==> final(answer)@ == if old(answer)@.len() > 0 {
            old(answer)@.drop_last()
        } else {
            old(answer)@
        },
        key is Esc ==> final(answer)@ == Seq::<char>::empty(),
        key is Char ==> final(answer)@ == if key->Char_0 == '\n' || is_control_char(key->Char_0) {
            old(answer)@
        } else {
            old(answer)@.push(key->Char_0)
        },
        !(key is Backspace || key is Esc || key is Char) ==> final(answer)@ == old(answer)@,
        key is Char && 0x20 <= (key->Char_0 as u32) < 0x7f ==> final(answer)@ == old(answer)@.push(key->Char_0),
{
    proof {
        if key is Char {
            crate::text::lemma_control_chars(key->Char_0);
        }
    }
    match key {
        Key::Backspace => {
            let n = answer.as_str().unicode_len();
            if n > 0 {
                let shorter = prefix_chars(answer.as_str(), n - 1);
                assert(shorter@ =~= old(answer)@.drop_last());
                *answer = shorter;
            }
            false
        },
        Key::Char('\n') => true,
        Key::Char(ch) => {
            if !is_control(ch) {
                push_char(answer, ch);
            }
            false
        },
        Key::Esc => {
            *answer = String::new();
            true
        },
        _ => false,
    }
}

/// What a prompt gives back: the answer, or nothing when it is empty.
pub fn prompt_answer(answer: String) -> (res: Option<String>)
    ensures
        res is None <==> answer@.len() == 0,
        res is Some ==> res->0@ == answer@,
{
    if answer.as_str().is_empty() {
        None
    } else {
        Some(answer)
    }
}

} // verus!
