//! What packets carry: users, and the bodies of the requests about them.

use crate::json::{
    boolean, is_object, json_boolean, json_is_object, json_member, json_quoted,
    json_string_member, member, quoted, string_member,
};
use crate::list::{decode_list, encode_list, list_decoded, list_encoded, list_view, same_list};
use crate::ident::{parse_uuid, uuid_parsed, uuid_written, write_uuid};
use crate::moment::DateTime;
use crate::packet::Body;
use serde_json::Value;
use std::collections::HashMap;
use vstd::prelude::*;
use vstd::std_specs::hash::*;
use vstd::string::*;

verus! {

broadcast use vstd::std_specs::hash::group_hash_axioms;

/// The field under which a stored user keeps the name.
pub const FIELD_NAME: u8 = 0;

/// The field under which a stored user keeps the username.
pub const FIELD_USERNAME: u8 = 1;

/// The field under which a stored user keeps the password.
pub const FIELD_PASSWORD: u8 = 2;

/// A user. The username is the key under which the store keeps the user.
pub struct User {
    pub name: String,
    pub username: String,
    pub password: String,
}

/// A [`User`] as contracts speak of it.
pub ghost struct UserView {
    pub name: Seq<char>,
    pub username: Seq<char>,
    pub password: Seq<char>,
}

impl View for User {
    type V = UserView;

    open spec fn view(&self) -> UserView {
        UserView { name: self.name@, username: self.username@, password: self.password@ }
    }
}

/// Whether a stored hash holds all three fields of a user.
pub open spec fn holds_user(hash: Map<u8, String>) -> bool {
    hash.contains_key(FIELD_NAME) && hash.contains_key(FIELD_USERNAME) && hash.contains_key(
        FIELD_PASSWORD,
    )
}

impl User {
    /// A user with an empty name.
    pub fn simple(user: String, pass: String) -> (made: Self)
        ensures
            made.name@ == Seq::<char>::empty(),
            made.username == user,
            made.password == pass,
    {
        Self { name: String::new(), username: user, password: pass }
    }

    /// A user with all three fields.
    pub fn full(name: String, user: String, pass: String) -> (made: Self)
        ensures
            made.name == name,
            made.username == user,
            made.password == pass,
    {
        Self { name, username: user, password: pass }
    }

    /// The key under which the store keeps the user, which is the username,
    /// and the fields to store under it, each with its number.
    pub fn get_hash(self) -> (stored: (String, Vec<(u8, String)>))
        ensures
            stored.0 == stored_key(self),
            stored.1@ == stored_fields(self),
    {
        let mut key_pairs = Vec::new();
        key_pairs.push((FIELD_NAME, self.name));
        key_pairs.push((FIELD_USERNAME, self.username.clone()));
        key_pairs.push((FIELD_PASSWORD, self.password));
        (self.username, key_pairs)
    }

    /// The user that a stored hash holds.
    pub fn from_hash(hash: HashMap<u8, String>) -> (user: Self)
        requires
            holds_user(hash@),
        ensures
            user.name == hash@[FIELD_NAME],
            user.username == hash@[FIELD_USERNAME],
            user.password == hash@[FIELD_PASSWORD],
    {
        let name = hash.get(&FIELD_NAME).unwrap();
        let username = hash.get(&FIELD_USERNAME).unwrap();
        let password = hash.get(&FIELD_PASSWORD).unwrap();
        Self { name: name.clone(), username: username.clone(), password: password.clone() }
    }

    /// The key under which the store keeps the user.
    pub fn get_key(self) -> (key: String)
        ensures
            key == self.username,
    {
        self.username
    }
}

/// The key under which the store keeps a user: the username.
pub open spec fn stored_key(user: User) -> String {
    user.username
}

/// The fields that the store keeps of a user, each with its number.
pub open spec fn stored_fields(user: User) -> Seq<(u8, String)> {
    seq![
        (FIELD_NAME, user.name),
        (FIELD_USERNAME, user.username),
        (FIELD_PASSWORD, user.password),
    ]
}

/// Users with different usernames are kept under different keys, so what is
/// stored for one is not written over by what is stored for the other.
pub proof fn lemma_distinct_users_distinct_keys(a: User, b: User)
    requires
        a.username@ != b.username@,
    ensures
        stored_key(a)@ != stored_key(b)@,
{
}

impl Body for User {
    /// An object with the three fields in the order name, username, password.
    open spec fn encoded(body: UserView) -> Seq<char> {
        "{\"name\":"@ + json_quoted(body.name) + ",\"username\":"@ + json_quoted(body.username)
            + ",\"password\":"@ + json_quoted(body.password) + "}"@
    }

    /// A document stands for a user when it is an object whose `name`,
    /// `username` and `password` are strings.
    open spec fn decoded(doc: Value) -> Option<UserView> {
        match (
            json_string_member(doc, "name"@),
            json_string_member(doc, "username"@),
            json_string_member(doc, "password"@),
        ) {
            (Some(name), Some(username), Some(password)) => Some(
                UserView { name, username, password },
            ),
            _ => None,
        }
    }

    fn encode(&self) -> (text: String) {
        let mut text = String::from_str("{\"name\":");
        text.append(quoted(self.name.as_str()).as_str());
        text.append(",\"username\":");
        text.append(quoted(self.username.as_str()).as_str());
        text.append(",\"password\":");
        text.append(quoted(self.password.as_str()).as_str());
        text.append("}");
        text
    }

    fn decode(doc: &Value) -> (r: Option<Self>) {
        let name = string_member(doc, "name");
        let username = string_member(doc, "username");
        let password = string_member(doc, "password");
        match (name, username, password) {
            (Some(name), Some(username), Some(password)) => Some(
                User {
                    name: String::from_str(name),
                    username: String::from_str(username),
                    password: String::from_str(password),
                },
            ),
            _ => None,
        }
    }

    fn same(&self, other: &Self) -> (same: bool) {
        self.name == other.name && self.username == other.username && self.password
            == other.password
    }
}

/// The body of a request that says nothing more than its kind.
pub struct Empty {}

impl View for Empty {
    type V = ();

    open spec fn view(&self) -> () {
        ()
    }
}

impl Body for Empty {
    /// An object without members.
    open spec fn encoded(body: ()) -> Seq<char> {
        "{}"@
    }

    /// Any object stands for the empty body, whatever its members.
    open spec fn decoded(doc: Value) -> Option<()> {
        if json_is_object(doc) {
            Some(())
        } else {
            None
        }
    }

    fn encode(&self) -> (text: String) {
        String::from_str("{}")
    }

    fn decode(doc: &Value) -> (r: Option<Self>) {
        if is_object(doc) {
            Some(Empty {  })
        } else {
            None
        }
    }

    fn same(&self, other: &Self) -> (same: bool) {
        true
    }
}

/// The body of a request to start an end-to-end exchange: a public key, and
/// the user it belongs to.
pub struct E2E {
    pub public_key: String,
    pub user: User,
}

/// An [`E2E`] as contracts speak of it.
pub ghost struct E2EView {
    pub public_key: Seq<char>,
    pub user: UserView,
}

impl View for E2E {
    type V = E2EView;

    open spec fn view(&self) -> E2EView {
        E2EView { public_key: self.public_key@, user: self.user@ }
    }
}

impl Body for E2E {
    /// An object with the key under `public_key` and the user under `user`.
    open spec fn encoded(body: E2EView) -> Seq<char> {
        "{\"public_key\":"@ + json_quoted(body.public_key) + ",\"user\":"@ + User::encoded(
            body.user,
        ) + "}"@
    }

    /// A document stands for such a body when it is an object whose
    /// `public_key` is a string and whose `user` stands for a user.
    open spec fn decoded(doc: Value) -> Option<E2EView> {
        match (json_string_member(doc, "public_key"@), json_member(doc, "user"@)) {
            (Some(public_key), Some(inner)) => match User::decoded(inner) {
                Some(user) => Some(E2EView { public_key, user }),
                None => None,
            },
            _ => None,
        }
    }

    fn encode(&self) -> (text: String) {
        let mut text = String::from_str("{\"public_key\":");
        text.append(quoted(self.public_key.as_str()).as_str());
        text.append(",\"user\":");
        text.append(self.user.encode().as_str());
        text.append("}");
        text
    }

    fn decode(doc: &Value) -> (r: Option<Self>) {
        let public_key = match string_member(doc, "public_key") {
            Some(public_key) => public_key,
            None => return None,
        };
        let inner = match member(doc, "user") {
            Some(inner) => inner,
            None => return None,
        };
        match User::decode(inner) {
            Some(user) => Some(E2E { public_key: String::from_str(public_key), user }),
            None => None,
        }
    }

    fn same(&self, other: &Self) -> (same: bool) {
        self.public_key == other.public_key && self.user.same(&other.user)
    }
}

/// A group of users that exchange messages.
pub struct Group {
    pub id: u128,
    pub name: String,
}

/// A [`Group`] as contracts speak of it.
pub ghost struct GroupView {
    pub id: u128,
    pub name: Seq<char>,
}

impl View for Group {
    type V = GroupView;

    open spec fn view(&self) -> GroupView {
        GroupView { id: self.id, name: self.name@ }
    }
}

impl Body for Group {
    /// An object with the identifier's text under `id` and the name under
    /// `name`.
    open spec fn encoded(body: GroupView) -> Seq<char> {
        "{\"id\":"@ + json_quoted(uuid_written(body.id)) + ",\"name\":"@ + json_quoted(body.name)
            + "}"@
    }

    /// A document stands for a group when it is an object whose `id` is a
    /// string that is an identifier and whose `name` is a string.
    open spec fn decoded(doc: Value) -> Option<GroupView> {
        match (json_string_member(doc, "id"@), json_string_member(doc, "name"@)) {
            (Some(id), Some(name)) => match uuid_parsed(id) {
                Some(id) => Some(GroupView { id, name }),
                None => None,
            },
            _ => None,
        }
    }

    fn encode(&self) -> (text: String) {
        let mut text = String::from_str("{\"id\":");
        text.append(quoted(write_uuid(self.id).as_str()).as_str());
        text.append(",\"name\":");
        text.append(quoted(self.name.as_str()).as_str());
        text.append("}");
        text
    }

    fn decode(doc: &Value) -> (r: Option<Self>) {
        let id = match string_member(doc, "id") {
            Some(id) => id,
            None => return None,
        };
        let name = match string_member(doc, "name") {
            Some(name) => name,
            None => return None,
        };
        match parse_uuid(id) {
            Some(id) => Some(Group { id, name: String::from_str(name) }),
            None => None,
        }
    }

    fn same(&self, other: &Self) -> (same: bool) {
        self.id == other.id && self.name == other.name
    }
}

/// A user as a member of a group.
pub struct Member {
    pub group: Group,
    pub user: User,
}

/// A [`Member`] as contracts speak of it.
pub ghost struct MemberView {
    pub group: GroupView,
    pub user: UserView,
}

impl View for Member {
    type V = MemberView;

    open spec fn view(&self) -> MemberView {
        MemberView { group: self.group@, user: self.user@ }
    }
}

impl Body for Member {
    /// An object with the group under `group` and the user under `user`.
    open spec fn encoded(body: MemberView) -> Seq<char> {
        "{\"group\":"@ + Group::encoded(body.group) + ",\"user\":"@ + User::encoded(body.user)
            + "}"@
    }

    /// A document stands for a member when it is an object whose `group`
    /// stands for a group and whose `user` stands for a user.
    open spec fn decoded(doc: Value) -> Option<MemberView> {
        match (json_member(doc, "group"@), json_member(doc, "user"@)) {
            (Some(group), Some(user)) => match (Group::decoded(group), User::decoded(user)) {
                (Some(group), Some(user)) => Some(MemberView { group, user }),
                _ => None,
            },
            _ => None,
        }
    }

    fn encode(&self) -> (text: String) {
        let mut text = String::from_str("{\"group\":");
        text.append(self.group.encode().as_str());
        text.append(",\"user\":");
        text.append(self.user.encode().as_str());
        text.append("}");
        text
    }

    fn decode(doc: &Value) -> (r: Option<Self>) {
        let group = match member(doc, "group") {
            Some(group) => group,
            None => return None,
        };
        let user = match member(doc, "user") {
            Some(user) => user,
            None => return None,
        };
        match (Group::decode(group), User::decode(user)) {
            (Some(group), Some(user)) => Some(Member { group, user }),
            _ => None,
        }
    }

    fn same(&self, other: &Self) -> (same: bool) {
        self.group.same(&other.group) && self.user.same(&other.user)
    }
}

/// A message that a member wrote to the group.
pub struct Message {
    pub id: u128,
    pub member: Member,
    pub body: String,
    pub created_at: DateTime,
}

/// A [`Message`] as contracts speak of it.
pub ghost struct MessageView {
    pub id: u128,
    pub member: MemberView,
    pub body: Seq<char>,
    pub created_at: DateTime,
}

impl View for Message {
    type V = MessageView;

    open spec fn view(&self) -> MessageView {
        MessageView {
            id: self.id,
            member: self.member@,
            body: self.body@,
            created_at: self.created_at,
        }
    }
}

impl Body for Message {
    /// An object with the identifier's text under `id`, the member under
    /// `member`, the text under `body` and the point in time under
    /// `created_at`.
    open spec fn encoded(body: MessageView) -> Seq<char> {
        "{\"id\":"@ + json_quoted(uuid_written(body.id)) + ",\"member\":"@ + Member::encoded(
            body.member,
        ) + ",\"body\":"@ + json_quoted(body.body) + ",\"created_at\":"@
            + body.created_at.encoded() + "}"@
    }

    /// A document stands for a message when it is an object whose `id` is a
    /// string that is an identifier, whose `member` stands for a member, whose
    /// `body` is a string and whose `created_at` stands for a point in time.
    open spec fn decoded(doc: Value) -> Option<MessageView> {
        match (
            json_string_member(doc, "id"@),
            json_member(doc, "member"@),
            json_string_member(doc, "body"@),
            json_member(doc, "created_at"@),
        ) {
            (Some(id), Some(member), Some(body), Some(created_at)) => match (
                uuid_parsed(id),
                Member::decoded(member),
                DateTime::decoded(created_at),
            ) {
                (Some(id), Some(member), Some(created_at)) => Some(
                    MessageView { id, member, body, created_at },
                ),
                _ => None,
            },
            _ => None,
        }
    }

    fn encode(&self) -> (text: String) {
        let mut text = String::from_str("{\"id\":");
        text.append(quoted(write_uuid(self.id).as_str()).as_str());
        text.append(",\"member\":");
        text.append(self.member.encode().as_str());
        text.append(",\"body\":");
        text.append(quoted(self.body.as_str()).as_str());
        text.append(",\"created_at\":");
        text.append(self.created_at.encode().as_str());
        text.append("}");
        text
    }

    fn decode(doc: &Value) -> (r: Option<Self>) {
        let id = string_member(doc, "id");
        let author = member(doc, "member");
        let body = string_member(doc, "body");
        let created_at = member(doc, "created_at");
        match (id, author, body, created_at) {
            (Some(id), Some(author), Some(body), Some(created_at)) => {
                match (parse_uuid(id), Member::decode(author), DateTime::decode(created_at)) {
                    (Some(id), Some(member), Some(created_at)) => Some(
                        Message { id, member, body: String::from_str(body), created_at },
                    ),
                    _ => None,
                }
            },
            _ => None,
        }
    }

    fn same(&self, other: &Self) -> (same: bool) {
        self.id == other.id && self.member.same(&other.member) && self.body == other.body
            && self.created_at == other.created_at
    }
}

/// The JSON text of a truth value.
pub open spec fn json_truth(value: bool) -> Seq<char> {
    if value {
        "true"@
    } else {
        "false"@
    }
}

/// Writes a truth value as JSON text.
fn truth(value: bool) -> (text: &'static str)
    ensures
        text@ == json_truth(value),
{
    if value {
        "true"
    } else {
        "false"
    }
}

/// The truth value under a name, where the document is an object that has one
/// there.
pub open spec fn json_boolean_member(doc: Value, key: Seq<char>) -> Option<bool> {
    match json_member(doc, key) {
        Some(found) => json_boolean(found),
        None => None,
    }
}

/// The truth value under a name, if the document has one there.
fn boolean_member(doc: &Value, key: &str) -> (r: Option<bool>)
    ensures
        r == json_boolean_member(*doc, key@),
{
    match member(doc, key) {
        Some(found) => boolean(found),
        None => None,
    }
}

/// The groups that a user belongs to, and whether any of them is new.
pub struct Chats {
    pub is_new: bool,
    pub groups: Vec<Group>,
}

/// A [`Chats`] as contracts speak of it.
pub ghost struct ChatsView {
    pub is_new: bool,
    pub groups: Seq<GroupView>,
}

impl View for Chats {
    type V = ChatsView;

    open spec fn view(&self) -> ChatsView {
        ChatsView { is_new: self.is_new, groups: list_view(self.groups@) }
    }
}

impl Body for Chats {
    /// An object with the truth value under `is_new` and the groups as an
    /// array under `groups`.
    open spec fn encoded(body: ChatsView) -> Seq<char> {
        "{\"is_new\":"@ + json_truth(body.is_new) + ",\"groups\":"@ + list_encoded::<Group>(
            body.groups,
        ) + "}"@
    }

    /// A document stands for such a body when it is an object whose `is_new`
    /// is a truth value and whose `groups` is an array of groups.
    open spec fn decoded(doc: Value) -> Option<ChatsView> {
        match (json_boolean_member(doc, "is_new"@), json_member(doc, "groups"@)) {
            (Some(is_new), Some(list)) => match list_decoded::<Group>(list) {
                Some(groups) => Some(ChatsView { is_new, groups }),
                None => None,
            },
            _ => None,
        }
    }

    fn encode(&self) -> (text: String) {
        let mut text = String::from_str("{\"is_new\":");
        text.append(truth(self.is_new));
        text.append(",\"groups\":");
        text.append(encode_list::<Group>(&self.groups).as_str());
        text.append("}");
        text
    }

    fn decode(doc: &Value) -> (r: Option<Self>) {
        let is_new = match boolean_member(doc, "is_new") {
            Some(is_new) => is_new,
            None => return None,
        };
        let list = match member(doc, "groups") {
            Some(list) => list,
            None => return None,
        };
        match decode_list::<Group>(list) {
            Some(groups) => Some(Chats { is_new, groups }),
            None => None,
        }
    }

    fn same(&self, other: &Self) -> (same: bool) {
        self.is_new == other.is_new && same_list::<Group>(&self.groups, &other.groups)
    }
}

/// The messages of a group.
pub struct Messages {
    pub group: Group,
    pub messages: Vec<Message>,
}

/// A [`Messages`] as contracts speak of it.
pub ghost struct MessagesView {
    pub group: GroupView,
    pub messages: Seq<MessageView>,
}

impl View for Messages {
    type V = MessagesView;

    open spec fn view(&self) -> MessagesView {
        MessagesView { group: self.group@, messages: list_view(self.messages@) }
    }
}

impl Body for Messages {
    /// An object with the group under `group` and the messages as an array
    /// under `messages`.
    open spec fn encoded(body: MessagesView) -> Seq<char> {
        "{\"group\":"@ + Group::encoded(body.group) + ",\"messages\":"@ + list_encoded::<
            Message,
        >(body.messages) + "}"@
    }

    /// A document stands for such a body when it is an object whose `group`
    /// stands for a group and whose `messages` is an array of messages.
    open spec fn decoded(doc: Value) -> Option<MessagesView> {
        match (json_member(doc, "group"@), json_member(doc, "messages"@)) {
            (Some(group), Some(list)) => match (
                Group::decoded(group),
                list_decoded::<Message>(list),
            ) {
                (Some(group), Some(messages)) => Some(MessagesView { group, messages }),
                _ => None,
            },
            _ => None,
        }
    }

    fn encode(&self) -> (text: String) {
        let mut text = String::from_str("{\"group\":");
        text.append(self.group.encode().as_str());
        text.append(",\"messages\":");
        text.append(encode_list::<Message>(&self.messages).as_str());
        text.append("}");
        text
    }

    fn decode(doc: &Value) -> (r: Option<Self>) {
        let group = match member(doc, "group") {
            Some(group) => group,
            None => return None,
        };
        let list = match member(doc, "messages") {
            Some(list) => list,
            None => return None,
        };
        match (Group::decode(group), decode_list::<Message>(list)) {
            (Some(group), Some(messages)) => Some(Messages { group, messages }),
            _ => None,
        }
    }

    fn same(&self, other: &Self) -> (same: bool) {
        self.group.same(&other.group) && same_list::<Message>(&self.messages, &other.messages)
    }
}

/// What has changed about a group or a message since it was last seen.
#[derive(Clone, Copy, Debug, PartialEq, Eq, Structural)]
pub struct Refresh {
    pub id: u128,
    pub is_group: bool,
    pub is_message: bool,
}

impl View for Refresh {
    type V = Refresh;

    open spec fn view(&self) -> Refresh {
        *self
    }
}

impl Body for Refresh {
    /// An object with the identifier's text under `id` and the two truth
    /// values under `is_group` and `is_message`.
    open spec fn encoded(body: Refresh) -> Seq<char> {
        "{\"id\":"@ + json_quoted(uuid_written(body.id)) + ",\"is_group\":"@ + json_truth(
            body.is_group,
        ) + ",\"is_message\":"@ + json_truth(body.is_message) + "}"@
    }

    /// A document stands for such a body when it is an object whose `id` is a
    /// string that is an identifier and whose `is_group` and `is_message` are
    /// truth values.
    open spec fn decoded(doc: Value) -> Option<Refresh> {
        match (
            json_string_member(doc, "id"@),
            json_boolean_member(doc, "is_group"@),
            json_boolean_member(doc, "is_message"@),
        ) {
            (Some(id), Some(is_group), Some(is_message)) => match uuid_parsed(id) {
                Some(id) => Some(Refresh { id, is_group, is_message }),
                None => None,
            },
            _ => None,
        }
    }

    fn encode(&self) -> (text: String) {
        let mut text = String::from_str("{\"id\":");
        text.append(quoted(write_uuid(self.id).as_str()).as_str());
        text.append(",\"is_group\":");
        text.append(truth(self.is_group));
        text.append(",\"is_message\":");
        text.append(truth(self.is_message));
        text.append("}");
        text
    }

    fn decode(doc: &Value) -> (r: Option<Self>) {
        let id = string_member(doc, "id");
        let is_group = boolean_member(doc, "is_group");
        let is_message = boolean_member(doc, "is_message");
        match (id, is_group, is_message) {
            (Some(id), Some(is_group), Some(is_message)) => match parse_uuid(id) {
                Some(id) => Some(Refresh { id, is_group, is_message }),
                None => None,
            },
            _ => None,
        }
    }

    fn same(&self, other: &Self) -> (same: bool) {
        self.id == other.id && self.is_group == other.is_group && self.is_message
            == other.is_message
    }
}

} // verus!
