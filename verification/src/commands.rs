//! Command plumbing: time stamps, the command-name registry, channel-named
//! choices, and the setup of a server's digging channels.

use vstd::prelude::*;
use crate::text::{push_signed_decimal, signed_decimal, str_eq, to_lowercase, unicode_lower};

verus! {

/// How a time stamp is shown.
#[derive(Clone, Copy, PartialEq, Eq, Structural, Debug)]
pub enum TimeVariant {
    Rel,
}

impl TimeVariant {
    /// The letter that selects the style, "R" for relative time.
    pub fn as_str(&self) -> (r: &'static str)
        ensures
            r@ == "R"@,
    {
        match self {
            TimeVariant::Rel => "R",
        }
    }
}

/// The markup of a time stamp at `secs` shown as relative time.
pub open spec fn spec_create_time_text(secs: i64) -> Seq<char> {
    "<t:"@ + signed_decimal(secs as int) + ":R>"@
}

/// A time stamp that the chat client shows in the reader's time.
#[derive(Clone, Copy, PartialEq, Eq, Structural, Debug)]
pub struct CreateTime {
    pub secs: i64,
    pub variant: TimeVariant,
}

impl CreateTime {
    /// A time stamp at `secs` seconds since the epoch, shown as relative time.
    pub fn new(secs: i64) -> (r: CreateTime)
        ensures
            r.secs == secs,
            r.variant == TimeVariant::Rel,
    {
        CreateTime { secs, variant: TimeVariant::Rel }
    }

    /// The markup of the time stamp: "<t:SECS:R>".
    pub fn to_string(&self) -> (r: String)
        ensures
            r@ == spec_create_time_text(self.secs),
    {
        let mut r = String::from_str("<t:");
        push_signed_decimal(&mut r, self.secs);
        r.append(":");
        let v = self.variant.as_str();
        r.append(v);
        r.append(">");
        proof {
            reveal_strlit(":R>");
            reveal_strlit(":");
            reveal_strlit("R");
            reveal_strlit(">");
            assert(r@ =~= spec_create_time_text(self.secs));
        }
        r
    }
}


/// The names of the bot's commands, "help" first; a command name chosen in
/// the help command is an index into this list.
pub struct CommandRegistry {
    names: Vec<String>,
}

impl View for CommandRegistry {
    type V = Seq<Seq<char>>;

    closed spec fn view(&self) -> Seq<Seq<char>> {
        self.names@.map_values(|n: String| n@)
    }
}

impl CommandRegistry {
    /// The registry of "help" followed by the given command names.
    pub fn new(command_names: &Vec<String>) -> (r: CommandRegistry)
        ensures
            r@ == seq!["help"@] + command_names@.map_values(|n: String| n@),
    {
        let mut names: Vec<String> = Vec::new();
        names.push(String::from_str("help"));
        for i in 0..command_names.len()
            invariant
                names@.map_values(|n: String| n@) == seq!["help"@] + command_names@.take(i as int).map_values(|n: String| n@),
        {
            let ghost before = names@;
            names.push(command_names[i].clone());
            assert(names@.map_values(|n: String| n@) =~= before.map_values(|n: String| n@).push(command_names@[i as int]@));
            assert(command_names@.take(i + 1).map_values(|n: String| n@)
                =~= command_names@.take(i as int).map_values(|n: String| n@).push(command_names@[i as int]@));
        }
        assert(command_names@.take(command_names.len() as int) =~= command_names@);
        CommandRegistry { names }
    }
}

/// A command name picked in the help command, with its place in the registry.
pub struct CommandName {
    pub command_name: String,
    pub command_name_index: usize,
}

impl CommandName {
    /// The names of all commands.
    pub fn get_names(registry: &CommandRegistry) -> (r: &Vec<String>)
        ensures
            r@.map_values(|n: String| n@) == registry@,
    {
        &registry.names
    }

    /// The command at a place of the registry, or `None` past its end.
    pub fn from_index(registry: &CommandRegistry, index: usize) -> (r: Option<CommandName>)
        ensures
            r is Some <==> index < registry@.len(),
            r matches Some(c) ==> c.command_name@ == registry@[index as int] && c.command_name_index == index,
    {
        let names = Self::get_names(registry);
        if index < names.len() {
            proof {
                assert(names@.map_values(|n: String| n@)[index as int] == names@[index as int]@);
            }
            Some(CommandName { command_name: names[index].clone(), command_name_index: index })
        } else {
            None
        }
    }

    /// The first command called `name`, or `None` when no command is.
    pub fn from_name(registry: &CommandRegistry, name: &str) -> (r: Option<CommandName>)
        ensures
            r is None <==> (forall|i: int| 0 <= i < registry@.len() ==> registry@[i] != name@),
            r matches Some(c) ==> {
                &&& c.command_name_index < registry@.len()
                &&& registry@[c.command_name_index as int] == name@
                &&& c.command_name@ == name@
                &&& forall|j: int| 0 <= j < c.command_name_index ==> registry@[j] != name@
            },
    {
        let names = Self::get_names(registry);
        for i in 0..names.len()
            invariant
                names@.map_values(|n: String| n@) == registry@,
                forall|j: int| 0 <= j < i ==> registry@[j] != name@,
        {
            assert(names@.map_values(|n: String| n@)[i as int] == names@[i as int]@);
            if str_eq(names[i].as_str(), name) {
                return Some(CommandName { command_name: String::from_str(name), command_name_index: i });
            }
        }
        None
    }

    /// The name of the command, read from the registry.
    pub fn name<'a>(&self, registry: &'a CommandRegistry) -> (r: &'a String)
        requires
            self.command_name_index < registry@.len(),
        ensures
            r@ == registry@[self.command_name_index as int],
    {
        let names = Self::get_names(registry);
        proof {
            assert(names@.map_values(|n: String| n@)[self.command_name_index as int] == names@[self.command_name_index as int]@);
        }
        &names[self.command_name_index]
    }
}

/// Choices that live in channels of their own name: each value is found by
/// the lower-cased form of its choice name.
pub struct ChannelBasedEnum<E> {
    all_values: Vec<(String, E)>,
    category: String,
}

impl<E: Copy> ChannelBasedEnum<E> {
    /// Each value with its choice name.
    pub closed spec fn spec_values(&self) -> Seq<(Seq<char>, E)> {
        self.all_values@.map_values(|p: (String, E)| (p.0@, p.1))
    }

    /// The name of the category the channels belong to.
    pub closed spec fn spec_category(&self) -> Seq<char> {
        self.category@
    }

    /// The choices given, each value with its choice name, in a category.
    pub fn new(all_values: Vec<(String, E)>, category: &str) -> (r: Self)
        ensures
            r.spec_values() == all_values@.map_values(|p: (String, E)| (p.0@, p.1)),
            r.spec_category() == category@,
    {
        ChannelBasedEnum { all_values, category: String::from_str(category) }
    }

    /// Each value with the lower-cased form of its choice name, the name of
    /// its channel.
    pub fn get_map(&self) -> (r: Vec<(String, E)>)
        ensures
            r@.len() == self.spec_values().len(),
            forall|i: int| 0 <= i < r@.len() ==> #[trigger] r@[i].0@ == unicode_lower(self.spec_values()[i].0)
                && r@[i].1 == self.spec_values()[i].1,
    {
        let mut r: Vec<(String, E)> = Vec::new();
        let n = self.all_values.len();
        let mut i: usize = 0;
        while i < n
            invariant
                i <= n,
                n == self.all_values@.len(),
                r@.len() == i,
                self.spec_values().len() == n,
                forall|k: int| 0 <= k < i ==> #[trigger] r@[k].0@ == unicode_lower(self.spec_values()[k].0)
                    && r@[k].1 == self.spec_values()[k].1,
            decreases n - i,
        {
            let lowered = to_lowercase(self.all_values[i].0.as_str());
            assert(self.spec_values()[i as int] == (self.all_values@[i as int].0@, self.all_values@[i as int].1));
            r.push((lowered, self.all_values[i].1));
            i = i + 1;
        }
        r
    }

    /// The value whose channel is called `name`; when several are, the last
    /// of them (as a map built from the values in order keeps it).
    pub fn get_by_channel_name(&self, name: &str) -> (r: Option<E>)
        ensures
            r is None <==> (forall|i: int| 0 <= i < self.spec_values().len()
                ==> unicode_lower(#[trigger] self.spec_values()[i].0) != name@),
            r matches Some(e) ==> exists|i: int| {
                &&& 0 <= i < self.spec_values().len()
                &&& unicode_lower(#[trigger] self.spec_values()[i].0) == name@
                &&& self.spec_values()[i].1 == e
                &&& forall|j: int| i < j < self.spec_values().len() ==> unicode_lower(self.spec_values()[j].0) != name@
            },
    {
        let map = self.get_map();
        let n = map.len();
        let mut i = n;
        while i > 0
            invariant
                i <= n,
                n == map@.len(),
                n == self.spec_values().len(),
                forall|k: int| 0 <= k < n ==> #[trigger] map@[k].0@ == unicode_lower(self.spec_values()[k].0)
                    && map@[k].1 == self.spec_values()[k].1,
                forall|j: int| i <= j < n ==> unicode_lower(self.spec_values()[j].0) != name@,
            decreases i,
        {
            i = i - 1;
            assert(map@[i as int].0@ == unicode_lower(self.spec_values()[i as int].0));
            if str_eq(map[i].0.as_str(), name) {
                return Some(map[i].1);
            }
        }
        None
    }
}

/// A room of the casino, entered in the channel of its name.
#[derive(Clone, Copy, PartialEq, Eq, Structural, Debug)]
pub enum CasinoRoom {
    CoinFlip,
}

impl CasinoRoom {
    /// The choice name of the room.
    pub fn name(&self) -> (r: &'static str)
        ensures
            r@ == "CoinFlip"@,
    {
        match self {
            CasinoRoom::CoinFlip => "CoinFlip",
        }
    }

    /// The channel of the room: its choice name lower-cased.
    pub fn get_channel_name(&self) -> (r: String)
        ensures
            r@ == unicode_lower("CoinFlip"@),
    {
        to_lowercase(self.name())
    }
}

/// The name of the category that holds the digging channels.
pub const DIGGING_CATEGORY_NAME: &'static str = "Digging";

/// The name of the beach channel.
pub const THE_BEACH_CHANNEL_NAME: &'static str = "beach";

/// A channel of a server, as the setup reads it.
pub struct ChannelInfo {
    pub id: u64,
    pub name: String,
    pub is_category: bool,
}

/// Channel `c` is a category called "Digging".
pub open spec fn is_digging_category(c: ChannelInfo) -> bool {
    c.is_category && c.name@ == DIGGING_CATEGORY_NAME@
}

/// The id of the first channel that satisfies `pred`, if any.
pub open spec fn first_match(channels: Seq<ChannelInfo>, pred: spec_fn(ChannelInfo) -> bool, r: Option<u64>) -> bool {
    &&& r is None <==> (forall|i: int| 0 <= i < channels.len() ==> !pred(#[trigger] channels[i]))
    &&& r matches Some(id) ==> exists|i: int| {
        &&& 0 <= i < channels.len()
        &&& pred(#[trigger] channels[i])
        &&& channels[i].id == id
        &&& forall|j: int| 0 <= j < i ==> !pred(channels[j])
    }
}

/// The first category called "Digging", if any.
pub fn find_digging_category(channels: &Vec<ChannelInfo>) -> (r: Option<u64>)
    ensures
        first_match(channels@, |c: ChannelInfo| is_digging_category(c), r),
{
    for i in 0..channels.len()
        invariant
            forall|j: int| 0 <= j < i ==> !is_digging_category(#[trigger] channels@[j]),
    {
        if channels[i].is_category && str_eq(channels[i].name.as_str(), DIGGING_CATEGORY_NAME) {
            return Some(channels[i].id);
        }
    }
    None
}

/// The first channel called `name`, if any.
pub fn find_channel_by_name(channels: &Vec<ChannelInfo>, name: &str) -> (r: Option<u64>)
    ensures
        first_match(channels@, |c: ChannelInfo| c.name@ == name@, r),
{
    for i in 0..channels.len()
        invariant
            forall|j: int| 0 <= j < i ==> (#[trigger] channels@[j]).name@ != name@,
    {
        if str_eq(channels[i].name.as_str(), name) {
            return Some(channels[i].id);
        }
    }
    None
}

/// What the setup of a server does: reuse the digging category or create
/// one, and create the beach channel when there is none.
#[derive(Clone, Copy, PartialEq, Eq, Structural, Debug)]
pub struct SetupPlan {
    pub existing_category: Option<u64>,
    pub create_category: bool,
    pub create_beach: bool,
}

/// The setup of a server with the given channels.
pub fn plan_setup(channels: &Vec<ChannelInfo>) -> (r: SetupPlan)
    ensures
        first_match(channels@, |c: ChannelInfo| is_digging_category(c), r.existing_category),
        r.create_category == (r.existing_category is None),
        r.create_beach == (forall|i: int| 0 <= i < channels@.len() ==> (#[trigger] channels@[i]).name@ != THE_BEACH_CHANNEL_NAME@),
{
    let existing_category = find_digging_category(channels);
    let beach = find_channel_by_name(channels, THE_BEACH_CHANNEL_NAME);
    SetupPlan {
        existing_category,
        create_category: existing_category.is_none(),
        create_beach: beach.is_none(),
    }
}

/// The words for a truth value, "true" or "false".
pub open spec fn bool_text(b: bool) -> Seq<char> {
    if b { "true"@ } else { "false"@ }
}

/// The report of a setup: which channels were created.
pub fn setup_report(created_category: bool, created_beach: bool) -> (r: String)
    ensures
        r@ == "Successfully created necessary channels!\nCreated digging category: "@ + bool_text(created_category)
            + "\nCreated beach channel: "@ + bool_text(created_beach),
{
    let mut r = String::from_str("Successfully created necessary channels!\nCreated digging category: ");
    r.append(if created_category { "true" } else { "false" });
    r.append("\nCreated beach channel: ");
    r.append(if created_beach { "true" } else { "false" });
    r
}

} // verus!
