//! The hand-off of shader texts to the rebuild step: first in, first out, and
//! receiving never waits.

use vstd::prelude::*;

verus! {

/// Shader texts that were read and not yet examined, oldest first.
#[derive(Debug)]
pub struct ShaderChannel {
    queue: Vec<String>,
}

impl View for ShaderChannel {
    type V = Seq<Seq<char>>;

    closed spec fn view(&self) -> Seq<Seq<char>> {
        self.queue@.map_values(|text: String| text@)
    }
}

impl ShaderChannel {
    /// An empty channel.
    pub fn new() -> (channel: Self)
        ensures
            channel@ == Seq::<Seq<char>>::empty(),
    {
        let channel = ShaderChannel { queue: Vec::new() };
        assert(channel@ =~= Seq::<Seq<char>>::empty());
        channel
    }

    /// How many texts wait.
    pub fn len(&self) -> (n: usize)
        ensures
            n == self@.len(),
    {
        self.queue.len()
    }

    /// Puts `text` behind the texts that wait.
    pub fn send(&mut self, text: String)
        ensures
            final(self)@ == old(self)@.push(text@),
    {
        self.queue.push(text);
        assert(self@ =~= old(self)@.push(text@));
    }

    /// Takes the oldest text, if any waits; an empty channel gives `None` at
    /// once.
    pub fn try_recv(&mut self) -> (text: Option<String>)
        ensures
            old(self)@.len() == 0 ==> text is None && final(self)@ == old(self)@,
            old(self)@.len() > 0 ==> text is Some && text.unwrap()@ == old(self)@[0] && final(self)@
                == old(self)@.subrange(1, old(self)@.len() as int),
    {
        if self.queue.len() == 0 {
            None
        } else {
            let first = self.queue.remove(0);
            assert(self@ =~= old(self)@.subrange(1, old(self)@.len() as int));
            Some(first)
        }
    }
}

} // verus!
