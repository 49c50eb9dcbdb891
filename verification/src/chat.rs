//! One entity for every shape in which the service describes a group.

use vstd::prelude::*;
use grammers_session::{PackedChat, PackedType};
use grammers_tl_types::types::ChatPhoto;

verus! {

/// The photo field of a chat record: the empty-photo sentinel, or a photo.
#[derive(Debug, PartialEq)]
pub enum PhotoField {
    Empty,
    Photo(ChatPhoto),
}

impl Clone for PhotoField {
    /// A copy of the field.
    fn clone(&self) -> (r: PhotoField)
        ensures
            r == *self,
    {
        match self {
            PhotoField::Empty => PhotoField::Empty,
            PhotoField::Photo(photo) => PhotoField::Photo(photo.clone()),
        }
    }
}

/// One of the five shapes in which the service describes a group-like chat,
/// with the fields that the library reads.
#[derive(Debug, PartialEq)]
#[allow(inconsistent_fields)]
pub enum RawChat {
    /// Placeholder of a chat that is unknown or cannot be reached.
    Empty { id: i64 },
    /// A small group.
    Chat { id: i64, title: String, photo: PhotoField },
    /// A small group that the account may not see.
    Forbidden { id: i64, title: String },
    /// A channel; a megagroup unless `broadcast` is set.
    Channel {
        id: i64,
        broadcast: bool,
        access_hash: Option<i64>,
        title: String,
        username: Option<String>,
        usernames: Option<Vec<String>>,
        photo: PhotoField,
    },
    /// A channel that the account may not see.
    ChannelForbidden { id: i64, broadcast: bool, access_hash: i64, title: String },
}

impl RawChat {
    /// The identifier, which every shape carries.
    pub open spec fn id(self) -> i64 {
        match self {
            RawChat::Empty { id } => id,
            RawChat::Chat { id, .. } => id,
            RawChat::Forbidden { id, .. } => id,
            RawChat::Channel { id, .. } => id,
            RawChat::ChannelForbidden { id, .. } => id,
        }
    }

    /// Whether the shape is one of the two channel shapes.
    pub open spec fn is_channel_shape(self) -> bool {
        self is Channel || self is ChannelForbidden
    }

    /// Whether the record is a channel shape flagged as broadcast.
    pub open spec fn broadcast(self) -> bool {
        match self {
            RawChat::Channel { broadcast, .. } => broadcast,
            RawChat::ChannelForbidden { broadcast, .. } => broadcast,
            _ => false,
        }
    }

    /// The access token: that of a channel shape, absent elsewhere.
    pub open spec fn access_hash(self) -> Option<i64> {
        match self {
            RawChat::Channel { access_hash, .. } => access_hash,
            RawChat::ChannelForbidden { access_hash, .. } => Some(access_hash),
            _ => None,
        }
    }

    /// The title: absent for the placeholder only.
    pub open spec fn title(self) -> Option<Seq<char>> {
        match self {
            RawChat::Empty { .. } => None,
            RawChat::Chat { title, .. } => Some(title@),
            RawChat::Forbidden { title, .. } => Some(title@),
            RawChat::Channel { title, .. } => Some(title@),
            RawChat::ChannelForbidden { title, .. } => Some(title@),
        }
    }

    /// The primary handle, which only a channel has.
    pub open spec fn username(self) -> Option<Seq<char>> {
        match self {
            RawChat::Channel { username: Some(name), .. } => Some(name@),
            _ => None,
        }
    }

    /// The alternate handles in order; empty unless a channel lists some.
    pub open spec fn usernames(self) -> Seq<Seq<char>> {
        match self {
            RawChat::Channel { usernames: Some(names), .. } => names@.map_values(
                |name: String| name@,
            ),
            _ => Seq::empty(),
        }
    }

    /// The photo of a small group or channel, unless its field is the sentinel.
    pub open spec fn photo(self) -> Option<ChatPhoto> {
        match self {
            RawChat::Chat { photo: PhotoField::Photo(p), .. } => Some(p),
            RawChat::Channel { photo: PhotoField::Photo(p), .. } => Some(p),
            _ => None,
        }
    }

    /// The key under which the chat is addressed.
    pub open spec fn packed(self) -> PackedChat {
        PackedChat {
            ty: if self.is_channel_shape() {
                PackedType::Megagroup
            } else {
                PackedType::Chat
            },
            id: self.id(),
            access_hash: self.access_hash(),
        }
    }

    /// Tells whether the record is a broadcast channel, which is no group.
    pub fn is_broadcast(&self) -> (r: bool)
        ensures
            r == self.broadcast(),
    {
        match self {
            RawChat::Channel { broadcast, .. } => *broadcast,
            RawChat::ChannelForbidden { broadcast, .. } => *broadcast,
            _ => false,
        }
    }
}

impl Clone for RawChat {
    /// A copy of the record, field by field.
    fn clone(&self) -> (r: RawChat)
        ensures
            r.id() == self.id(),
            r.broadcast() == self.broadcast(),
            r.is_channel_shape() == self.is_channel_shape(),
            r.access_hash() == self.access_hash(),
            r.title() == self.title(),
            r.username() == self.username(),
            r.usernames() == self.usernames(),
            r.photo() == self.photo(),
    {
        match self {
            RawChat::Empty { id } => RawChat::Empty { id: *id },
            RawChat::Chat { id, title, photo } => RawChat::Chat {
                id: *id,
                title: title.clone(),
                photo: photo.clone(),
            },
            RawChat::Forbidden { id, title } => RawChat::Forbidden {
                id: *id,
                title: title.clone(),
            },
            RawChat::Channel {
                id,
                broadcast,
                access_hash,
                title,
                username,
                usernames,
                photo,
            } => RawChat::Channel {
                id: *id,
                broadcast: *broadcast,
                access_hash: *access_hash,
                title: title.clone(),
                username: match username {
                    Some(name) => Some(name.clone()),
                    None => None,
                },
                usernames: usernames.clone(),
                photo: photo.clone(),
            },
            RawChat::ChannelForbidden {
                id,
                broadcast,
                access_hash,
                title,
            } => RawChat::ChannelForbidden {
                id: *id,
                broadcast: *broadcast,
                access_hash: *access_hash,
                title: title.clone(),
            },
        }
    }
}

/// A group chat: a small group, or a channel that is a megagroup.
#[derive(Debug, PartialEq)]
pub struct Group {
    raw: RawChat,
}

impl View for Group {
    type V = RawChat;

    closed spec fn view(&self) -> RawChat {
        self.raw
    }
}

impl Clone for Group {
    /// A copy of the group, which is a group again.
    fn clone(&self) -> (r: Group)
        ensures
            r@.id() == self@.id(),
            r@.is_channel_shape() == self@.is_channel_shape(),
            r@.access_hash() == self@.access_hash(),
            r@.title() == self@.title(),
            r@.username() == self@.username(),
            r@.usernames() == self@.usernames(),
            r@.photo() == self@.photo(),
    {
        proof {
            use_type_invariant(self);
        }
        Group { raw: self.raw.clone() }
    }
}

impl Group {
    #[verifier::type_invariant]
    spec fn never_broadcast(self) -> bool {
        !self.raw.broadcast()
    }

    /// Wraps a record of the service. A broadcast channel is no group: the
    /// caller keeps it away.
    pub fn from_raw(chat: RawChat) -> (r: Group)
        requires
            !chat.broadcast(),
        ensures
            r@ == chat,
            r@.id() == chat.id(),
    {
        match chat {
            RawChat::Empty { .. } | RawChat::Chat { .. } | RawChat::Forbidden { .. } => Group {
                raw: chat,
            },
            RawChat::Channel { .. } => Group { raw: chat },
            RawChat::ChannelForbidden { .. } => Group { raw: chat },
        }
    }

    /// The record that the group wraps. It is never a broadcast channel.
    pub fn raw(&self) -> (r: &RawChat)
        ensures
            *r == self@,
            !r.broadcast(),
    {
        proof {
            use_type_invariant(self);
        }
        &self.raw
    }

    /// The identifier of the group, whatever its shape.
    pub fn id(&self) -> (r: i64)
        ensures
            r == self@.id(),
    {
        match &self.raw {
            RawChat::Empty { id } => *id,
            RawChat::Chat { id, .. } => *id,
            RawChat::Forbidden { id, .. } => *id,
            RawChat::Channel { id, .. } => *id,
            RawChat::ChannelForbidden { id, .. } => *id,
        }
    }

    /// Packs the group into the key that addresses it.
    pub fn pack(&self) -> (r: PackedChat)
        ensures
            r == self@.packed(),
    {
        let (id, access_hash): (i64, Option<i64>) = match &self.raw {
            RawChat::Empty { id } => (*id, None),
            RawChat::Chat { id, .. } => (*id, None),
            RawChat::Forbidden { id, .. } => (*id, None),
            RawChat::Channel { id, access_hash, .. } => (*id, *access_hash),
            RawChat::ChannelForbidden { id, access_hash, .. } => (*id, Some(*access_hash)),
        };
        PackedChat {
            ty: if self.is_megagroup() {
                PackedType::Megagroup
            } else {
                PackedType::Chat
            },
            id,
            access_hash,
        }
    }

    /// The title of the group, which may be empty; none for the placeholder.
    pub fn title(&self) -> (r: Option<&str>)
        ensures
            r.is_some() == self@.title().is_some(),
            r matches Some(t) ==> self@.title() == Some(t@),
    {
        match &self.raw {
            RawChat::Empty { .. } => None,
            RawChat::Chat { title, .. } => Some(title.as_str()),
            RawChat::Forbidden { title, .. } => Some(title.as_str()),
            RawChat::Channel { title, .. } => Some(title.as_str()),
            RawChat::ChannelForbidden { title, .. } => Some(title.as_str()),
        }
    }

    /// The public handle of the group, without the leading "@".
    pub fn username(&self) -> (r: Option<&str>)
        ensures
            r.is_some() == self@.username().is_some(),
            r matches Some(name) ==> self@.username() == Some(name@),
    {
        match &self.raw {
            RawChat::Channel { username: Some(name), .. } => Some(name.as_str()),
            _ => None,
        }
    }

    /// The collectible handles of the group, in their order.
    pub fn usernames(&self) -> (r: Vec<&str>)
        ensures
            r@.len() == self@.usernames().len(),
            forall|i: int| 0 <= i < r@.len() ==> (#[trigger] r@[i])@ == self@.usernames()[i],
    {
        let mut out: Vec<&str> = Vec::new();
        match &self.raw {
            RawChat::Channel { usernames: Some(names), .. } => {
                let mut i: usize = 0;
                while i < names.len()
                    invariant
                        i <= names@.len(),
                        out@.len() == i,
                        forall|k: int| 0 <= k < i ==> (#[trigger] out@[k])@ == names@[k]@,
                    decreases names@.len() - i,
                {
                    out.push(names[i].as_str());
                    i = i + 1;
                }
            },
            _ => {},
        }
        out
    }

    /// The photo of the group, if it has one.
    pub fn photo(&self) -> (r: Option<&ChatPhoto>)
        ensures
            r.is_some() == self@.photo().is_some(),
            r matches Some(p) ==> self@.photo() == Some(*p),
    {
        match &self.raw {
            RawChat::Chat { photo: PhotoField::Photo(p), .. } => Some(p),
            RawChat::Channel { photo: PhotoField::Photo(p), .. } => Some(p),
            _ => None,
        }
    }

    /// Whether the group is a megagroup: a channel in either shape.
    pub fn is_megagroup(&self) -> (r: bool)
        ensures
            r == self@.is_channel_shape(),
    {
        match &self.raw {
            RawChat::Empty { .. } | RawChat::Chat { .. } | RawChat::Forbidden { .. } => false,
            RawChat::Channel { .. } | RawChat::ChannelForbidden { .. } => true,
        }
    }
}

/// A chat is a megagroup exactly in the two channel shapes, and none in the
/// other three.
pub proof fn lemma_megagroup_by_shape(chat: RawChat)
    ensures
        chat.is_channel_shape() <==> (chat is Channel || chat is ChannelForbidden),
        !chat.is_channel_shape() <==> (chat is Empty || chat is Chat || chat is Forbidden),
{
}

/// The key of a chat names a megagroup exactly when the chat is a channel in
/// either shape, and carries the chat's identifier.
pub proof fn lemma_packed_kind_follows_shape(chat: RawChat)
    ensures
        (chat.packed().ty == PackedType::Megagroup) <==> chat.is_channel_shape(),
        (chat.packed().ty == PackedType::Chat) <==> !chat.is_channel_shape(),
        chat.packed().id == chat.id(),
{
}

/// A key carries an access token only for a channel in either shape, and
/// always for a channel that may not be seen.
pub proof fn lemma_packed_token_only_for_channels(chat: RawChat)
    ensures
        chat.packed().access_hash.is_some() ==> chat.is_channel_shape(),
        chat is ChannelForbidden ==> chat.packed().access_hash.is_some(),
{
}

/// Where every channel record holds its access token, a key carries a token
/// exactly for the two channel shapes.
pub proof fn lemma_packed_token_iff_channel(chat: RawChat)
    requires
        chat matches RawChat::Channel { access_hash, .. } ==> access_hash.is_some(),
    ensures
        chat.packed().access_hash.is_some() <==> chat.is_channel_shape(),
{
}

} // verus!
