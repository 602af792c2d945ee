use vstd::prelude::*;

use crate::console::text::push_char;
use crate::key::{Key, KeyCmp};
use crate::version::{version_rank, Version};

verus! {

// ---------------------------------------------------------------------------
// The chat log.
// ---------------------------------------------------------------------------

/// The number of messages the chat keeps.
pub const MAX_MESSAGES: usize = 200;

/// How many ticks a new message stays visible.
pub const START_TICKS: usize = 200;

/// The messages received, oldest first, each with the ticks it stays
/// visible, and whether a message arrived since the chat was last drawn.
pub struct ChatContext<M> {
    messages: Vec<(usize, M)>,
    dirty: bool,
}

/// The index where the run of messages still visible at the end of `ls`
/// starts, looking at the first `k` messages: after the last message below
/// `k` whose time ran out, or 0.
pub open spec fn live_start<M>(ls: Seq<(usize, M)>, k: int) -> int
    decreases k,
{
    if k <= 0 {
        0
    } else if ls[k - 1].0 == 0 {
        k
    } else {
        live_start(ls, k - 1)
    }
}

/// The visible messages with index in `lo..hi`, newest first, each with its
/// remaining ticks after one more tick and its index.
pub open spec fn visible_between<M>(ls: Seq<(usize, M)>, lo: int, hi: int) -> Seq<(usize, usize)>
    decreases hi - lo,
{
    if lo >= hi {
        Seq::empty()
    } else {
        let rest = visible_between(ls, lo + 1, hi);
        if ls[lo].0 - 1 > 0 {
            rest.push(((ls[lo].0 - 1) as usize, lo as usize))
        } else {
            rest
        }
    }
}

/// The messages after a tick: those from `start` on lose a tick.
pub open spec fn ticked<M>(ls: Seq<(usize, M)>, start: int) -> Seq<(usize, M)> {
    Seq::new(
        ls.len(),
        |k: int|
            if k >= start {
                ((ls[k].0 - 1) as usize, ls[k].1)
            } else {
                ls[k]
            },
    )
}

proof fn lemma_live_start<M>(ls: Seq<(usize, M)>, k: int)
    requires
        0 <= k <= ls.len(),
    ensures
        0 <= live_start(ls, k) <= k,
        forall|j: int| live_start(ls, k) <= j < k ==> ls[j].0 > 0,
        live_start(ls, k) > 0 ==> ls[live_start(ls, k) - 1].0 == 0,
    decreases k,
{
    if k > 0 && ls[k - 1].0 != 0 {
        lemma_live_start(ls, k - 1);
    }
}

impl<M> ChatContext<M> {
    pub closed spec fn messages(&self) -> Seq<(usize, M)> {
        self.messages@
    }

    pub closed spec fn spec_dirty(&self) -> bool {
        self.dirty
    }

    pub open spec fn wf(&self) -> bool {
        self.messages().len() <= MAX_MESSAGES
    }

    pub fn new() -> (c: Self)
        ensures
            c.wf(),
            c.messages() == Seq::<(usize, M)>::empty(),
            !c.spec_dirty(),
    {
        ChatContext { messages: Vec::new(), dirty: false }
    }

    /// Adds a message, visible for `START_TICKS` ticks; when the chat is full
    /// the oldest message goes.
    pub fn push_msg(&mut self, message: M)
        requires
            old(self).wf(),
        ensures
            final(self).wf(),
            final(self).messages() == (if old(self).messages().len() >= MAX_MESSAGES {
                old(self).messages().drop_first()
            } else {
                old(self).messages()
            }).push((START_TICKS, message)),
            final(self).spec_dirty(),
    {
        if self.messages.len() >= MAX_MESSAGES {
            self.messages.remove(0);
        }
        self.messages.push((START_TICKS, message));
        self.dirty = true;
        proof {
            assert(old(self).messages().len() >= MAX_MESSAGES ==> old(self).messages().remove(0)
                =~= old(self).messages().drop_first());
        }
    }

    /// Whether a message arrived since the mark was last cleared.
    pub fn is_dirty(&self) -> (b: bool)
        ensures
            b == self.spec_dirty(),
    {
        self.dirty
    }

    /// Clears the mark of new messages.
    pub fn clear_dirty(&mut self)
        ensures
            !final(self).spec_dirty(),
            final(self).messages() == old(self).messages(),
    {
        self.dirty = false;
    }

    /// The message at index `k`, oldest first.
    pub fn message(&self, k: usize) -> (m: &M)
        requires
            k < self.messages().len(),
        ensures
            *m == self.messages()[k as int].1,
    {
        &self.messages[k].1
    }

    /// Ages the messages by a tick and gives those still visible, newest
    /// first, with their remaining ticks and index. Going back from the
    /// newest, messages lose a tick until one is met whose time had run out;
    /// the older ones are left as they are.
    pub fn tick_visible_messages(&mut self) -> (r: Vec<(usize, usize)>)
        ensures
            ({
                let ls = old(self).messages();
                let start = live_start(ls, ls.len() as int);
                &&& r@ == visible_between(ls, start, ls.len() as int)
                &&& final(self).messages() == ticked(ls, start)
            }),
            final(self).spec_dirty() == old(self).spec_dirty(),
    {
        let ghost ls = self.messages@;
        let ghost n = ls.len() as int;
        let mut r: Vec<(usize, usize)> = Vec::new();
        let mut k: usize = self.messages.len();
        proof {
            lemma_live_start(ls, n);
        }
        while k > 0
            invariant_except_break
                k <= n,
                n == ls.len(),
                self.messages@.len() == n,
                0 <= live_start(ls, n) <= k,
                forall|j: int| live_start(ls, n) <= j < n ==> ls[j].0 > 0,
                live_start(ls, n) > 0 ==> ls[live_start(ls, n) - 1].0 == 0,
                r@ == visible_between(ls, k as int, n),
                self.messages@ == Seq::new(
                    n as nat,
                    |j: int|
                        if j >= k {
                            ((ls[j].0 - 1) as usize, ls[j].1)
                        } else {
                            ls[j]
                        },
                ),
                self.dirty == old(self).dirty,
            ensures
                r@ == visible_between(ls, live_start(ls, n), n),
                self.messages@ == ticked(ls, live_start(ls, n)),
                self.dirty == old(self).dirty,
            decreases k,
        {
            let life = self.messages[k - 1].0;
            if life == 0 {
                proof {
                    assert(live_start(ls, n) == k as int);
                    assert(self.messages@ =~= ticked(ls, k as int));
                }
                break;
            }
            let ghost before = self.messages@;
            self.messages[k - 1].0 = life - 1;
            if life - 1 > 0 {
                r.push((life - 1, k - 1));
            }
            proof {
                assert(visible_between(ls, k - 1, n) == (if ls[k - 1].0 - 1 > 0 {
                    visible_between(ls, k as int, n).push(((ls[k - 1].0 - 1) as usize, (k - 1) as usize))
                } else {
                    visible_between(ls, k as int, n)
                }));
                if live_start(ls, n) == k as int {
                    assert(ls[k - 1].0 == 0);
                }
                assert(self.messages@ =~= Seq::new(
                    n as nat,
                    |j: int|
                        if j >= k - 1 {
                            ((ls[j].0 - 1) as usize, ls[j].1)
                        } else {
                            ls[j]
                        },
                ));
            }
            k = k - 1;
        }
        r
    }
}

// ---------------------------------------------------------------------------
// Writing a chat message.
// ---------------------------------------------------------------------------

pub const MAX_MESSAGE_LENGTH_PRE_1_11: usize = 100;

pub const MAX_MESSAGE_LENGTH_SINCE_1_11: usize = 256;

/// The longest message, in bytes, that a server of version `v` takes.
pub open spec fn message_limit(v: Version) -> int {
    if version_rank(v) >= version_rank(Version::V1_11) {
        MAX_MESSAGE_LENGTH_SINCE_1_11 as int
    } else {
        MAX_MESSAGE_LENGTH_PRE_1_11 as int
    }
}

pub fn max_message_length(v: Version) -> (n: usize)
    ensures
        n == message_limit(v),
{
    if v.is_before(Version::V1_11) {
        MAX_MESSAGE_LENGTH_PRE_1_11
    } else {
        MAX_MESSAGE_LENGTH_SINCE_1_11
    }
}

/// The number of bytes UTF-8 takes for `c`.
pub open spec fn utf8_width(c: char) -> int {
    if (c as u32) < 0x80 {
        1
    } else if (c as u32) < 0x800 {
        2
    } else if (c as u32) < 0x10000 {
        3
    } else {
        4
    }
}

/// The number of bytes UTF-8 takes for `s`.
pub open spec fn utf8_len(s: Seq<char>) -> int
    decreases s.len(),
{
    if s.len() == 0 {
        0
    } else {
        utf8_len(s.drop_last()) + utf8_width(s.last())
    }
}

/// The message after pasting `clip` into `w`: characters are taken in turn
/// while the message is shorter than `limit` bytes.
pub open spec fn pasted(w: Seq<char>, clip: Seq<char>, limit: int) -> Seq<char>
    decreases clip.len(),
{
    if clip.len() == 0 || utf8_len(w) >= limit {
        w
    } else {
        pasted(w.push(clip[0]), clip.drop_first(), limit)
    }
}

/// Characters that are never typed into a message.
pub open spec fn is_illegal_char(c: char) -> bool {
    c == 13 as char || c == 127 as char || c == 167 as char || c == 255 as char
}

/// The keys with a meaning of their own in the chat.
#[derive(Clone, Copy, Debug, PartialEq, Eq, Structural)]
pub enum NamedKey {
    Escape,
    Enter,
    Backspace,
    Other,
}

/// A key event in the chat: the key, which of the chat's named keys it is,
/// and the text it produces, if any.
pub struct ChatKey {
    pub key: Key,
    pub named: NamedKey,
    pub text: Option<String>,
}

/// What a key does to the chat screen: nothing more, close it, or send the
/// message and close it.
pub enum ChatAction {
    Nothing,
    Close,
    Send(String),
}

/// Whether the cursor of the message line appears, disappears or stays.
#[derive(Clone, Copy, Debug, PartialEq, Eq, Structural)]
pub enum BlinkChange {
    Show,
    Hide,
    Keep,
}

/// The message being written, with its length in bytes, whether it changed
/// since it was last drawn, and the step of the cursor's blinking.
pub struct ChatInput {
    written: String,
    written_bytes: usize,
    dirty_written: bool,
    animation: u8,
}

/// Whether a key with ctrl held pastes the clipboard (ctrl and `v`).
pub open spec fn is_paste(key: &ChatKey, ctrl: bool) -> bool {
    ctrl && key.key.spec_eq_ignore_case('v')
}

/// The key event reaches the typing of its text: it is no release of escape or
/// enter, no paste and no backspace.
pub open spec fn types_text(key: &ChatKey, down: bool, ctrl: bool) -> bool {
    &&& !(key.named == NamedKey::Escape && !down)
    &&& !(key.named == NamedKey::Enter && !down)
    &&& !is_paste(key, ctrl)
    &&& key.named != NamedKey::Backspace
}

impl ChatInput {
    pub closed spec fn written(&self) -> Seq<char> {
        self.written@
    }

    pub closed spec fn spec_dirty_written(&self) -> bool {
        self.dirty_written
    }

    pub closed spec fn spec_animation(&self) -> u8 {
        self.animation
    }

    pub closed spec fn wf(&self) -> bool {
        self.written_bytes == utf8_len(self.written@)
    }

    pub fn new() -> (c: Self)
        ensures
            c.wf(),
            c.written() == Seq::<char>::empty(),
            !c.spec_dirty_written(),
            c.spec_animation() == 0,
    {
        ChatInput { written: String::new(), written_bytes: 0, dirty_written: false, animation: 0 }
    }

    /// The message being written.
    pub fn text(&self) -> (s: &str)
        ensures
            s@ == self.written(),
    {
        self.written.as_str()
    }

    /// Whether the message changed since the last call; clears the mark.
    pub fn take_dirty_written(&mut self) -> (b: bool)
        ensures
            b == old(self).spec_dirty_written(),
            !final(self).spec_dirty_written(),
            final(self).written() == old(self).written(),
            final(self).spec_animation() == old(self).spec_animation(),
            old(self).wf() ==> final(self).wf(),
    {
        let b = self.dirty_written;
        self.dirty_written = false;
        b
    }

    /// One frame of the cursor's blinking: it shows for ten frames and hides
    /// for ten.
    pub fn blink(&mut self) -> (c: BlinkChange)
        ensures
            old(self).spec_animation() == 0 ==> c == BlinkChange::Show && final(self).spec_animation()
                == 20,
            old(self).spec_animation() != 0 ==> final(self).spec_animation() == old(
                self,
            ).spec_animation() - 1 && c == (if old(self).spec_animation() == 10 {
                BlinkChange::Hide
            } else {
                BlinkChange::Keep
            }),
            final(self).written() == old(self).written(),
            final(self).spec_dirty_written() == old(self).spec_dirty_written(),
            old(self).wf() ==> final(self).wf(),
    {
        if self.animation == 0 {
            self.animation = 20;
            BlinkChange::Show
        } else {
            let c = if self.animation == 10 {
                BlinkChange::Hide
            } else {
                BlinkChange::Keep
            };
            self.animation = self.animation - 1;
            c
        }
    }

    fn push_written(&mut self, c: char)
        requires
            old(self).wf(),
            old(self).written_bytes < 1000,
        ensures
            final(self).wf(),
            final(self).written() == old(self).written().push(c),
            final(self).written_bytes == old(self).written_bytes + utf8_width(c),
            final(self).spec_dirty_written() == old(self).spec_dirty_written(),
            final(self).spec_animation() == old(self).spec_animation(),
    {
        let u = c as u32;
        let w: usize = if u < 0x80 {
            1
        } else if u < 0x800 {
            2
        } else if u < 0x10000 {
            3
        } else {
            4
        };
        let ghost before = self.written@;
        push_char(&mut self.written, c);
        self.written_bytes = self.written_bytes + w;
        proof {
            assert(self.written@.drop_last() =~= before);
        }
    }

    fn pop_written(&mut self)
        requires
            old(self).wf(),
            old(self).written().len() > 0,
        ensures
            final(self).wf(),
            final(self).written() == old(self).written().drop_last(),
            final(self).spec_dirty_written() == old(self).spec_dirty_written(),
            final(self).spec_animation() == old(self).spec_animation(),
    {
        let n = self.written.as_str().unicode_len();
        let last = self.written.as_str().get_char(n - 1);
        let u = last as u32;
        let w: usize = if u < 0x80 {
            1
        } else if u < 0x800 {
            2
        } else if u < 0x10000 {
            3
        } else {
            4
        };
        let kept = String::from_str(self.written.as_str().substring_char(0, n - 1));
        proof {
            assert(self.written@.drop_last() =~= self.written@.subrange(0, n - 1));
            assert(self.written@.last() == last);
            lemma_utf8_len_nonneg(self.written@.drop_last());
        }
        self.written = kept;
        self.written_bytes = self.written_bytes - w;
    }

    /// Handles a key in the chat (`down`: pressed rather than released;
    /// `ctrl`: ctrl is held; `version`: the server's; `clipboard`: the
    /// clipboard's text when it can be read). Releasing escape closes the
    /// chat; releasing enter sends the message, if any, and closes it; ctrl
    /// and `v` paste while the message is short enough; backspace takes off
    /// the last character; any other key's text is typed unless it is an
    /// illegal character or the message is already at its limit.
    pub fn on_key_press(
        &mut self,
        key: &ChatKey,
        down: bool,
        ctrl: bool,
        version: Version,
        clipboard: Option<&str>,
    ) -> (r: ChatAction)
        requires
            old(self).wf(),
            types_text(key, down, ctrl) && key.text is Some ==> key.text->0@.len() == 1
                && (key.text->0@[0] as u32) < 128,
        ensures
            final(self).wf(),
            final(self).spec_animation() == old(self).spec_animation(),
            ({
                let w = old(self).written();
                let unchanged = final(self).written() == w && final(self).spec_dirty_written()
                    == old(self).spec_dirty_written();
                let limit = message_limit(version);
                if key.named == NamedKey::Escape && !down {
                    r is Close && unchanged
                } else if key.named == NamedKey::Enter && !down {
                    unchanged && if w.len() > 0 {
                        r matches ChatAction::Send(m) && m@ == w
                    } else {
                        r is Close
                    }
                } else if is_paste(key, ctrl) {
                    r is Nothing && match clipboard {
                        Some(c) => final(self).written() == pasted(w, c@, limit)
                            && final(self).spec_dirty_written(),
                        None => unchanged,
                    }
                } else if key.named == NamedKey::Backspace {
                    r is Nothing && if w.len() > 0 {
                        final(self).written() == w.drop_last() && final(self).spec_dirty_written()
                    } else {
                        unchanged
                    }
                } else {
                    r is Nothing && match key.text {
                        Some(t) => if is_illegal_char(t@[0]) || utf8_len(w) >= limit {
                            unchanged
                        } else {
                            final(self).written() == w + t@ && final(self).spec_dirty_written()
                        },
                        None => unchanged,
                    }
                }
            }),
    {
        if key.named == NamedKey::Escape && !down {
            return ChatAction::Close;
        }
        if key.named == NamedKey::Enter && !down {
            if self.written.as_str().unicode_len() > 0 {
                return ChatAction::Send(self.written.clone());
            }
            return ChatAction::Close;
        }
        let limit = max_message_length(version);
        if key.key.eq_ignore_case('v') && ctrl {
            if let Some(clip) = clipboard {
                let n = clip.unicode_len();
                let mut k: usize = 0;
                proof {
                    assert(clip@.subrange(0, n as int) =~= clip@);
                }
                while k < n
                    invariant_except_break
                        self.wf(),
                        k <= n,
                        n == clip@.len(),
                        limit == message_limit(version),
                        utf8_len(old(self).written()) >= limit ==> k == 0 && self.written()
                            == old(self).written(),
                        pasted(old(self).written(), clip@, limit as int) == pasted(
                            self.written(),
                            clip@.subrange(k as int, n as int),
                            limit as int,
                        ),
                        self.spec_animation() == old(self).spec_animation(),
                    ensures
                        self.wf(),
                        self.written() == pasted(old(self).written(), clip@, limit as int),
                        self.spec_animation() == old(self).spec_animation(),
                    decreases n - k,
                {
                    if self.written_bytes >= limit {
                        break;
                    }
                    let c = clip.get_char(k);
                    proof {
                        assert(clip@.subrange(k as int, n as int).drop_first() =~= clip@.subrange(
                            k + 1,
                            n as int,
                        ));
                        assert(clip@.subrange(k as int, n as int)[0] == c);
                    }
                    self.push_written(c);
                    k = k + 1;
                }
                self.dirty_written = true;
            }
            return ChatAction::Nothing;
        }
        if key.named == NamedKey::Backspace {
            if self.written.as_str().unicode_len() > 0 {
                self.pop_written();
                self.dirty_written = true;
            }
            return ChatAction::Nothing;
        }
        if let Some(t) = &key.text {
            let curr = t.as_str().get_char(0);
            if !(curr == 13 as char || curr == 127 as char || curr == 167 as char || curr == 255 as char) {
                if self.written_bytes >= limit {
                    return ChatAction::Nothing;
                }
                self.push_written(curr);
                proof {
                    assert(self.written() =~= old(self).written() + t@);
                }
                self.dirty_written = true;
            }
        }
        ChatAction::Nothing
    }
}

proof fn lemma_utf8_len_nonneg(s: Seq<char>)
    ensures
        utf8_len(s) >= 0,
    decreases s.len(),
{
    if s.len() > 0 {
        lemma_utf8_len_nonneg(s.drop_last());
    }
}

} // verus!
