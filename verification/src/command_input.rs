use vstd::prelude::*;
use crate::menu::InputMode;
use crate::text::{pop_char, push_char, push_str};

verus! {

/// The command line of the dashboard: the text being typed, whether it is
/// being edited, and every command line submitted so far, oldest first.
pub struct CommandInput {
    pub input: String,
    pub input_mode: InputMode,
    pub command_cache: Vec<String>,
}

/// The views of the submitted command lines, oldest first.
pub open spec fn cache_view(cache: Seq<String>) -> Seq<Seq<char>> {
    cache.map_values(|s: String| s@)
}

impl Default for CommandInput {
    fn default() -> (fresh: CommandInput)
        ensures
            fresh.input@ == Seq::<char>::empty(),
            fresh.input_mode == InputMode::Normal,
            fresh.command_cache@ == Seq::<String>::empty(),
    {
        CommandInput {
            input: String::new(),
            input_mode: InputMode::Normal,
            command_cache: Vec::with_capacity(100),
        }
    }
}

impl CommandInput {
    /// Appends a typed character to the command line.
    pub fn type_char(&mut self, c: char)
        ensures
            final(self).input@ == old(self).input@.push(c),
            final(self).input_mode == old(self).input_mode,
            final(self).command_cache@ == old(self).command_cache@,
    {
        push_char(&mut self.input, c);
    }

    /// Appends pasted text to the command line.
    pub fn paste(&mut self, text: &str)
        ensures
            final(self).input@ == old(self).input@ + text@,
            final(self).input_mode == old(self).input_mode,
            final(self).command_cache@ == old(self).command_cache@,
    {
        push_str(&mut self.input, text);
    }

    /// Removes the last character of the command line, if there is one.
    pub fn backspace(&mut self)
        ensures
            final(self).input@ == (if old(self).input@.len() == 0 {
                old(self).input@
            } else {
                old(self).input@.drop_last()
            }),
            final(self).input_mode == old(self).input_mode,
            final(self).command_cache@ == old(self).command_cache@,
    {
        let _ = pop_char(&mut self.input);
    }

    /// Submits the command line: its text is returned and appended to the
    /// cache of submitted lines, and the line is left empty.
    pub fn submit(&mut self) -> (line: String)
        ensures
            line@ == old(self).input@,
            final(self).input@ == Seq::<char>::empty(),
            final(self).input_mode == old(self).input_mode,
            final(self).command_cache@.len() == old(self).command_cache@.len() + 1,
            cache_view(final(self).command_cache@) == cache_view(old(self).command_cache@).push(
                old(self).input@,
            ),
    {
        let mut taken = String::new();
        std::mem::swap(&mut taken, &mut self.input);
        let line = taken.clone();
        self.command_cache.push(taken);
        proof {
            assert(cache_view(self.command_cache@) =~= cache_view(old(self).command_cache@).push(
                old(self).input@,
            ));
        }
        line
    }
}

} // verus!
