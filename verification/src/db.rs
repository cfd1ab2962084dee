//! The database layout: table definitions, the tables the bot clears at
//! start, players' records and the texts about balances.

use vstd::prelude::*;
use crate::text::{decimal, push_decimal};

verus! {

/// The table of players.
pub const USER_TABLE: &'static str = "user";

/// The table of items.
pub const ITEM_TABLE: &'static str = "item";

/// The type of a field of a table.
#[derive(Clone, Copy, PartialEq, Eq, Structural, Debug)]
pub enum FieldTy {
    Int,
    Float,
    RecordId,
    Date,
}

impl FieldTy {
    /// The name of the type in the database's language.
    pub open spec fn spec_name(self) -> Seq<char> {
        match self {
            FieldTy::Int => "int"@,
            FieldTy::Float => "float"@,
            FieldTy::RecordId => "record"@,
            FieldTy::Date => "datetime"@,
        }
    }

    /// The name of the type in the database's language.
    pub fn as_str(&self) -> (r: &'static str)
        ensures
            r@ == self.spec_name(),
            r@ == match self {
                FieldTy::Int => "int"@,
                FieldTy::Float => "float"@,
                FieldTy::RecordId => "record"@,
                FieldTy::Date => "datetime"@,
            },
    {
        match self {
            FieldTy::Int => "int",
            FieldTy::Float => "float",
            FieldTy::RecordId => "record",
            FieldTy::Date => "datetime",
        }
    }
}

/// The statement that defines a strict table.
pub open spec fn table_line(table: Seq<char>) -> Seq<char> {
    "DEFINE TABLE "@ + table + " SCHEMAFULL;"@
}

/// The statement that defines a typed field of a table.
pub open spec fn field_line(table: Seq<char>, field: Seq<char>, ty: FieldTy) -> Seq<char> {
    "DEFINE FIELD "@ + field + " ON TABLE "@ + table + " TYPE "@ + ty.spec_name() + ";"@
}

/// The definition of a table and its fields, one statement per line.
pub open spec fn spec_def(table: Seq<char>, fields: Seq<(Seq<char>, FieldTy)>) -> Seq<char>
    decreases fields.len(),
{
    if fields.len() == 0 {
        table_line(table)
    } else {
        spec_def(table, fields.drop_last()) + "\n"@ + field_line(table, fields.last().0, fields.last().1)
    }
}

/// The fields as names and types.
pub open spec fn field_views(fields: Seq<(&str, FieldTy)>) -> Seq<(Seq<char>, FieldTy)> {
    fields.map_values(|f: (&str, FieldTy)| (f.0@, f.1))
}

/// The definition of a strict table with the given typed fields: the table
/// statement, then one field statement per line.
pub fn def(table_name: &str, fields: &Vec<(&str, FieldTy)>) -> (r: String)
    ensures
        r@ == spec_def(table_name@, field_views(fields@)),
{
    let mut r = String::from_str("DEFINE TABLE ");
    r.append(table_name);
    r.append(" SCHEMAFULL;");
    assert(field_views(fields@).take(0) =~= Seq::<(Seq<char>, FieldTy)>::empty());
    for i in 0..fields.len()
        invariant
            r@ == spec_def(table_name@, field_views(fields@).take(i as int)),
    {
        let (field_name, field_ty) = fields[i];
        r.append("\n");
        r.append("DEFINE FIELD ");
        r.append(field_name);
        r.append(" ON TABLE ");
        r.append(table_name);
        r.append(" TYPE ");
        r.append(field_ty.as_str());
        r.append(";");
        proof {
            let taken = field_views(fields@).take(i + 1);
            assert(taken.drop_last() =~= field_views(fields@).take(i as int));
            assert(taken.last() == (field_name@, field_ty));
            assert(r@ =~= spec_def(table_name@, taken));
        }
    }
    assert(field_views(fields@).take(fields.len() as int) =~= field_views(fields@));
    r
}

/// The definitions of the bot's tables: players with a balance, items with
/// their id, rarity and owner, and the times of players' last digs.
pub open spec fn spec_schema() -> Seq<char> {
    spec_def("user"@, seq![("balance"@, FieldTy::Int)]) + "\n"@
        + spec_def("item"@, seq![("item_type"@, FieldTy::Int), ("rarity"@, FieldTy::Float), ("owner"@, FieldTy::RecordId)])
        + "\n"@ + spec_def("last_dug"@, seq![("ldt"@, FieldTy::Date)])
}

/// The statements that define the bot's tables.
pub fn schema_query() -> (r: String)
    ensures
        r@ == spec_schema(),
{
    let user_fields = vec![("balance", FieldTy::Int)];
    let item_fields = vec![("item_type", FieldTy::Int), ("rarity", FieldTy::Float), ("owner", FieldTy::RecordId)];
    let last_dug_fields = vec![("ldt", FieldTy::Date)];
    let mut r = def("user", &user_fields);
    r.append("\n");
    let item = def("item", &item_fields);
    r.append(item.as_str());
    r.append("\n");
    let last_dug = def("last_dug", &last_dug_fields);
    r.append(last_dug.as_str());
    proof {
        assert(field_views(user_fields@) =~= seq![("balance"@, FieldTy::Int)]);
        assert(field_views(item_fields@)
            =~= seq![("item_type"@, FieldTy::Int), ("rarity"@, FieldTy::Float), ("owner"@, FieldTy::RecordId)]);
        assert(field_views(last_dug_fields@) =~= seq![("ldt"@, FieldTy::Date)]);
    }
    r
}

/// The statements run at start to clear tables, in the order users, items,
/// last digs, each only when asked for.
pub fn startup_drop_queries(drop_users: bool, drop_items: bool, drop_last_dug: bool) -> (r: Vec<&'static str>)
    ensures
        r@.map_values(|q: &str| q@)
            == (if drop_users { seq!["DELETE user"@] } else { Seq::empty() })
            + (if drop_items { seq!["DELETE item"@] } else { Seq::empty() })
            + (if drop_last_dug { seq!["DELETE last_dug"@] } else { Seq::empty() }),
{
    let mut r: Vec<&'static str> = Vec::new();
    if drop_users {
        r.push("DELETE user");
    }
    if drop_items {
        r.push("DELETE item");
    }
    if drop_last_dug {
        r.push("DELETE last_dug");
    }
    assert(r@.map_values(|q: &str| q@)
        =~= (if drop_users { seq!["DELETE user"@] } else { Seq::empty() })
        + (if drop_items { seq!["DELETE item"@] } else { Seq::empty() })
        + (if drop_last_dug { seq!["DELETE last_dug"@] } else { Seq::empty() }));
    r
}

/// A player's record: their balance.
#[derive(Clone, Copy, PartialEq, Eq, Structural, Debug)]
pub struct UserData {
    pub balance: u64,
}

impl Default for UserData {
    /// A new player starts with nothing.
    fn default() -> (r: UserData)
        ensures
            r.balance == 0,
    {
        UserData { balance: 0 }
    }
}

impl UserData {
    /// The record key of a player: the player table and the player's id read
    /// as a signed number.
    pub fn user_resource_by_id(user_id: u64) -> (r: (&'static str, i64))
        ensures
            r.0@ == USER_TABLE@,
            r.1 == user_id as i64,
    {
        (USER_TABLE, user_id as i64)
    }

    /// The refusal given to a player without a record.
    pub fn profile_not_created_error() -> (r: &'static str)
        ensures
            r@ == "User profile not yet created, please setup your user with `/create`"@,
    {
        "User profile not yet created, please setup your user with `/create`"
    }
}

/// The text showing a player's balance: "NAME's balance is: BALANCE".
pub fn balance_message(name: &str, balance: u64) -> (r: String)
    ensures
        r@ == name@ + "'s balance is: "@ + decimal(balance as nat),
{
    let mut r = String::from_str(name);
    r.append("'s balance is: ");
    push_decimal(&mut r, balance);
    r
}

/// The text showing the caller's own balance.
pub fn own_balance_message(balance: u64) -> (r: String)
    ensures
        r@ == "Your balance is: "@ + decimal(balance as nat),
{
    let mut r = String::from_str("Your balance is: ");
    push_decimal(&mut r, balance);
    r
}

/// The text that greets a newly created player with their starting balance.
pub fn profile_created_message(balance: u64) -> (r: String)
    ensures
        r@ == "Your user profile has been created! Your starting balance is: "@ + decimal(balance as nat),
{
    let mut r = String::from_str("Your user profile has been created! Your starting balance is: ");
    push_decimal(&mut r, balance);
    r
}

/// The line of the richest-players list for one player.
pub fn balance_field(balance: u64) -> (r: String)
    ensures
        r@ == "Balance: "@ + decimal(balance as nat),
{
    let mut r = String::from_str("Balance: ");
    push_decimal(&mut r, balance);
    r
}

/// The report of a cleared table.
pub fn dropped_table_message(table_name: &str) -> (r: String)
    ensures
        r@ == "Dropped table "@ + table_name@ + " successfully"@,
{
    let mut r = String::from_str("Dropped table ");
    r.append(table_name);
    r.append(" successfully");
    r
}

/// The query for the richest players: the ten highest balances, highest first.
pub const BAL_TOP_QUERY: &'static str = "SELECT * FROM user ORDER BY balance DESC LIMIT 10";

} // verus!
