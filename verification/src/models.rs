//! Data model: run configuration, credentials, remote entities and the
//! mutable run state, together with their mathematical views.

use vstd::prelude::*;

verus! {

/// Spec-level view of an `Option<String>` as an optional character sequence.
pub open spec fn opt_view(o: Option<String>) -> Option<Seq<char>> {
    match o {
        Some(s) => Some(s@),
        None => None,
    }
}

/// The views of a sequence of strings.
pub open spec fn str_views(ss: Seq<String>) -> Seq<Seq<char>> {
    ss.map_values(|s: String| s@)
}

/// A copy of an optional string with the same view.
pub fn clone_opt_string(o: &Option<String>) -> (r: Option<String>)
    ensures
        opt_view(r) == opt_view(*o),
{
    match o {
        Some(s) => Some(s.clone()),
        None => None,
    }
}

/// Run configuration: the channel to purge, the filters, the pacing delays
/// and the stop conditions.
pub struct Args {
    /// Channel ID to delete messages from.
    pub channel_id: String,
    /// Total number of messages to delete, if capped.
    pub number: Option<u32>,
    /// Only delete messages with attachments.
    pub only_attachments: bool,
    /// Delay between fetching each page, in milliseconds.
    pub fetch_delay: u32,
    /// Delay between deleting each message, in milliseconds.
    pub delete_delay: u32,
    /// Content filter strings to match messages against.
    pub filter: Vec<String>,
    /// Message ID before which to start deleting (initial cursor).
    pub before_id: Option<String>,
    /// Message ID at which to stop deleting.
    pub after_id: Option<String>,
    /// Output file to record deleted messages to.
    pub output: Option<String>,
}

#[verifier::ext_equal]
pub struct ArgsView {
    pub channel_id: Seq<char>,
    pub number: Option<u32>,
    pub only_attachments: bool,
    pub fetch_delay: u32,
    pub delete_delay: u32,
    pub filter: Seq<Seq<char>>,
    pub before_id: Option<Seq<char>>,
    pub after_id: Option<Seq<char>>,
    pub output: Option<Seq<char>>,
}

impl View for Args {
    type V = ArgsView;

    open spec fn view(&self) -> ArgsView {
        ArgsView {
            channel_id: self.channel_id@,
            number: self.number,
            only_attachments: self.only_attachments,
            fetch_delay: self.fetch_delay,
            delete_delay: self.delete_delay,
            filter: str_views(self.filter@),
            before_id: opt_view(self.before_id),
            after_id: opt_view(self.after_id),
            output: opt_view(self.output),
        }
    }
}

/// Credentials loaded once at startup.
pub struct Config {
    /// The token the remote API is authenticated with.
    pub user_token: String,
}

#[verifier::ext_equal]
pub struct ConfigView {
    pub user_token: Seq<char>,
}

impl View for Config {
    type V = ConfigView;

    open spec fn view(&self) -> ConfigView {
        ConfigView { user_token: self.user_token@ }
    }
}

/// The authenticated identity, as the remote API reports it.
pub struct User {
    pub id: String,
    pub username: String,
}

#[verifier::ext_equal]
pub struct UserView {
    pub id: Seq<char>,
    pub username: Seq<char>,
}

impl View for User {
    type V = UserView;

    open spec fn view(&self) -> UserView {
        UserView { id: self.id@, username: self.username@ }
    }
}

/// The author of a remote message.
pub struct MessageAuthor {
    pub id: String,
    pub username: String,
}

#[verifier::ext_equal]
pub struct MessageAuthorView {
    pub id: Seq<char>,
    pub username: Seq<char>,
}

impl View for MessageAuthor {
    type V = MessageAuthorView;

    open spec fn view(&self) -> MessageAuthorView {
        MessageAuthorView { id: self.id@, username: self.username@ }
    }
}

/// A remote message: an immutable snapshot fetched from the channel.
/// Attachments are carried as plain descriptors; the logic only ever asks
/// whether the list is empty.
pub struct Message {
    pub id: String,
    pub content: String,
    pub timestamp: String,
    pub author: MessageAuthor,
    pub attachments: Vec<String>,
}

#[verifier::ext_equal]
pub struct MessageView {
    pub id: Seq<char>,
    pub content: Seq<char>,
    pub timestamp: Seq<char>,
    pub author: MessageAuthorView,
    pub attachments: Seq<Seq<char>>,
}

impl View for Message {
    type V = MessageView;

    open spec fn view(&self) -> MessageView {
        MessageView {
            id: self.id@,
            content: self.content@,
            timestamp: self.timestamp@,
            author: self.author@,
            attachments: str_views(self.attachments@),
        }
    }
}

/// The views of a sequence of messages.
pub open spec fn views_of(msgs: Seq<Message>) -> Seq<MessageView> {
    msgs.map_values(|m: Message| m@)
}

impl Message {
    /// A deep copy whose view equals this message's view.
    pub fn dup(&self) -> (r: Message)
        ensures
            r@ == self@,
    {
        let mut attachments: Vec<String> = Vec::new();
        let mut i: usize = 0;
        while i < self.attachments.len()
            invariant
                i <= self.attachments.len(),
                attachments@.len() == i,
                forall|j: int| 0 <= j < i ==> attachments@[j]@ == self.attachments@[j]@,
            decreases self.attachments.len() - i,
        {
            attachments.push(self.attachments[i].clone());
            i += 1;
        }
        let r = Message {
            id: self.id.clone(),
            content: self.content.clone(),
            timestamp: self.timestamp.clone(),
            author: MessageAuthor {
                id: self.author.id.clone(),
                username: self.author.username.clone(),
            },
            attachments,
        };
        proof {
            assert(r@.attachments =~= self@.attachments);
            assert(r@ =~= self@);
        }
        r
    }
}

/// Mutable run state: the resolved identity, the running deleted count, the
/// run configuration and the credentials.
pub struct State {
    /// The acting user's account ID, resolved once at startup.
    pub user_id: Option<String>,
    /// Running count of deleted messages, monotonically incremented.
    pub deleted_count: u32,
    /// Immutable run configuration.
    pub args: Args,
    /// Immutable credentials.
    pub config: Config,
}

#[verifier::ext_equal]
pub struct StateView {
    pub user_id: Option<Seq<char>>,
    pub deleted_count: u32,
    pub args: ArgsView,
    pub config: ConfigView,
}

impl View for State {
    type V = StateView;

    open spec fn view(&self) -> StateView {
        StateView {
            user_id: opt_view(self.user_id),
            deleted_count: self.deleted_count,
            args: self.args@,
            config: self.config@,
        }
    }
}

} // verus!
