use vstd::prelude::*;

use crate::json::{find_member, member_keys, member_of, members_view, JsonValue, JsonView};

verus! {

/// Caller-supplied side data for a run: string keys mapped to JSON values,
/// in the order in which their keys were first set.
///
/// `with_data` keeps each key at most once (`keys_distinct`); `data` is
/// public, so code that edits it directly must keep that itself.
#[derive(Debug, Clone)]
pub struct Context {
    pub data: Vec<(String, JsonValue)>,
}

impl View for Context {
    type V = Seq<(Seq<char>, JsonView)>;

    open spec fn view(&self) -> Seq<(Seq<char>, JsonView)> {
        members_view(self.data@)
    }
}

impl Context {
    /// An empty context.
    pub fn new() -> (r: Context)
        ensures
            r@.len() == 0,
    {
        Context { data: Vec::new() }
    }

    /// Every key is set at most once.
    pub open spec fn keys_distinct(&self) -> bool {
        member_keys(self@).no_duplicates()
    }

    /// Sets `key` to `value`: the entry with that key takes the new value, or
    /// a new entry is added at the end.
    pub fn with_data(self, key: &str, value: JsonValue) -> (r: Context)
        ensures
            r@ == match member_keys(self@).index_of_first(key@) {
                Some(i) => self@.update(i, (key@, value@)),
                None => self@.push((key@, value@)),
            },
            self.keys_distinct() ==> r.keys_distinct(),
    {
        let mut data = self.data;
        let ghost keys = member_keys(self@);
        proof {
            keys.index_of_first_ensures(key@);
        }
        match find_member(&data, key) {
            Some(i) => {
                let k = data[i].0.clone();
                data.set(i, (k, value));
                proof {
                    assert(members_view(data@) =~= self@.update(i as int, (key@, value@)));
                    assert(member_keys(members_view(data@)) =~= keys);
                }
            },
            None => {
                data.push((String::from_str(key), value));
                proof {
                    assert(members_view(data@) =~= self@.push((key@, value@)));
                    assert(member_keys(members_view(data@)) =~= keys.push(key@));
                    if keys.no_duplicates() {
                        assert forall|a: int, b: int|
                            0 <= a < b < keys.len() + 1 implies keys.push(key@)[a] != keys.push(
                            key@,
                        )[b] by {
                            if b == keys.len() {
                                assert(keys[a] == keys.push(key@)[a]);
                            }
                        }
                    }
                }
            },
        }
        Context { data }
    }

    /// The value set for `key`, if any.
    pub fn get(&self, key: &str) -> (r: Option<&JsonValue>)
        ensures
            match r {
                Some(v) => member_of(self@, key@) == Some(v@),
                None => member_of(self@, key@) is None,
            },
    {
        match find_member(&self.data, key) {
            Some(i) => Some(&self.data[i].1),
            None => None,
        }
    }

    /// The number of keys set.
    pub fn len(&self) -> (r: usize)
        ensures
            r == self@.len(),
    {
        self.data.len()
    }

    /// Whether no key is set.
    pub fn is_empty(&self) -> (r: bool)
        ensures
            r == (self@.len() == 0),
    {
        self.data.len() == 0
    }
}

impl Default for Context {
    fn default() -> (r: Context)
        ensures
            r@.len() == 0,
    {
        Context::new()
    }
}

/// One entry of a conversation.
///
/// `role` is one of `system`, `user`, `assistant` or `tool`; a `tool` entry
/// names the tool that produced it.
#[derive(Debug, Clone)]
pub struct Message {
    pub role: String,
    pub content: String,
    pub tool_name: Option<String>,
}

/// The role of the entries that record a tool's output.
pub open spec fn tool_role() -> Seq<char> {
    "tool"@
}

/// `m` is an entry with role `role`, content `content` and no tool name.
pub open spec fn is_plain_message(m: Message, role: Seq<char>, content: Seq<char>) -> bool {
    &&& m.role@ == role
    &&& m.content@ == content
    &&& m.tool_name is None
}

/// `m` is a `tool` entry that records `content` as the output of `tool_name`.
pub open spec fn is_tool_message(m: Message, tool_name: Seq<char>, content: Seq<char>) -> bool {
    &&& m.role@ == tool_role()
    &&& m.content@ == content
    &&& m.tool_name matches Some(n) && n@ == tool_name
}

/// The state of one run: the caller's context and the conversation so far.
#[derive(Debug, Clone)]
pub struct RunContext {
    pub context: Context,
    pub messages: Vec<Message>,
}

impl RunContext {
    /// A run over `context` with an empty conversation.
    pub fn new(context: Context) -> (r: RunContext)
        ensures
            r.context == context,
            r.messages@.len() == 0,
    {
        RunContext { context, messages: Vec::new() }
    }

    /// Appends an entry with the given role and content and no tool name.
    pub fn add_message(&mut self, role: &str, content: &str)
        ensures
            final(self).context == old(self).context,
            final(self).messages@.len() == old(self).messages@.len() + 1,
            final(self).messages@.drop_last() == old(self).messages@,
            is_plain_message(final(self).messages@.last(), role@, content@),
    {
        self.messages.push(
            Message { role: String::from_str(role), content: String::from_str(content), tool_name: None },
        );
        proof {
            assert(self.messages@.drop_last() =~= old(self).messages@);
        }
    }

    /// Appends a `tool` entry recording `content` as the output of `tool_name`.
    pub fn add_tool_message(&mut self, tool_name: &str, content: &str)
        ensures
            final(self).context == old(self).context,
            final(self).messages@.len() == old(self).messages@.len() + 1,
            final(self).messages@.drop_last() == old(self).messages@,
            is_tool_message(final(self).messages@.last(), tool_name@, content@),
    {
        self.messages.push(
            Message {
                role: String::from_str("tool"),
                content: String::from_str(content),
                tool_name: Some(String::from_str(tool_name)),
            },
        );
        proof {
            reveal_strlit("tool");
            assert(self.messages@.drop_last() =~= old(self).messages@);
        }
    }
}

} // verus!
