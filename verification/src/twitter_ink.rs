//! A microblog: tweets, messages and followers.

use vstd::prelude::*;
use crate::account::AccountId;
use crate::chain::Timestamp;
use crate::store::Store;

verus! {

/// A short public text.
#[derive(Debug, PartialEq, Eq)]
pub struct Tweet {
    pub tweet_id: i32,
    pub author: AccountId,
    pub content: String,
    pub created_at: Timestamp,
}

impl Clone for Tweet {
    fn clone(&self) -> (r: Self)
        ensures
            r == *self,
    {
        Tweet {
            tweet_id: self.tweet_id,
            author: self.author,
            content: self.content.clone(),
            created_at: self.created_at,
        }
    }
}

/// A text from one account to another.
#[derive(Debug, PartialEq, Eq)]
pub struct Message {
    pub content: String,
    pub from: AccountId,
    pub to: AccountId,
    pub created_at: Timestamp,
}

impl Clone for Message {
    fn clone(&self) -> (r: Self)
        ensures
            r == *self,
    {
        Message {
            content: self.content.clone(),
            from: self.from,
            to: self.to,
            created_at: self.created_at,
        }
    }
}

/// The identifier of a tweet.
pub type TweetId = i32;

/// The identifier of a message.
pub type MessageId = i32;

/// Tweets, messages and who follows whom.
pub struct TwitterInk {
    pub tweets: Store<TweetId, Tweet>,
    /// For each author, the author's latest tweet.
    pub tweets_of: Store<AccountId, Vec<Tweet>>,
    /// For each message identifier, the message sent under it.
    pub conversations: Store<MessageId, Vec<Message>>,
    /// For each account, the account it followed last.
    pub following: Store<AccountId, Vec<AccountId>>,
    /// The identifier that the next tweet gets.
    pub tweet_next_id: i32,
    /// The identifier that the next message gets.
    pub message_next_id: i32,
}

/// Announces a tweet.
#[derive(Debug, Clone, Copy, PartialEq, Eq)]
pub struct TweetSent {
    pub id: i32,
    pub author: AccountId,
}

/// Announces a message.
#[derive(Debug, Clone, Copy, PartialEq, Eq)]
pub struct MessageSent {
    pub id: i32,
    pub from: AccountId,
    pub to: AccountId,
}

impl TwitterInk {
    /// The state that the contract is always in: each tweet is filed under the
    /// identifier it carries, which the counter has handed out, as each message
    /// is under one of its counter's; and every list holds exactly one entry, for
    /// an author a tweet of that author.
    pub open spec fn wf(&self) -> bool {
        &&& 0 <= self.tweet_next_id
        &&& 0 <= self.message_next_id
        &&& forall|k: TweetId| #[trigger]
            self.tweets@.contains_key(k) ==> {
                &&& 0 <= k < self.tweet_next_id
                &&& self.tweets@[k].tweet_id == k
            }
        &&& forall|a: AccountId| #[trigger]
            self.tweets_of@.contains_key(a) ==> {
                &&& self.tweets_of@[a]@.len() == 1
                &&& self.tweets_of@[a]@[0].author == a
                &&& 0 <= self.tweets_of@[a]@[0].tweet_id < self.tweet_next_id
            }
        &&& forall|k: MessageId| #[trigger]
            self.conversations@.contains_key(k) ==> {
                &&& 0 <= k < self.message_next_id
                &&& self.conversations@[k]@.len() == 1
            }
        &&& forall|a: AccountId| #[trigger]
            self.following@.contains_key(a) ==> self.following@[a]@.len() == 1
    }

    /// Whether `other` holds the same messages and followings as this contract.
    pub open spec fn same_talk(&self, other: &TwitterInk) -> bool {
        &&& self.conversations == other.conversations
        &&& self.following == other.following
        &&& self.message_next_id == other.message_next_id
    }

    /// Whether `other` holds the same tweets as this contract.
    pub open spec fn same_tweets(&self, other: &TwitterInk) -> bool {
        &&& self.tweets == other.tweets
        &&& self.tweets_of == other.tweets_of
        &&& self.tweet_next_id == other.tweet_next_id
    }

    /// Whether tweeting `content` as `from` at the time `now` leads from
    /// `before` to this state: the tweet is filed under the next tweet identifier
    /// and becomes the one tweet listed for its author.
    pub open spec fn tweeted(
        &self,
        before: &TwitterInk,
        now: Timestamp,
        content: String,
        from: AccountId,
    ) -> bool {
        let tweet = Tweet {
            tweet_id: before.tweet_next_id,
            author: from,
            content,
            created_at: now,
        };
        &&& self.tweets@ == before.tweets@.insert(before.tweet_next_id, tweet)
        &&& self.tweets_of@.contains_key(from)
        &&& self.tweets_of@[from]@ == seq![tweet]
        &&& self.tweets_of@ == before.tweets_of@.insert(from, self.tweets_of@[from])
        &&& self.tweet_next_id == before.tweet_next_id + 1
        &&& self.same_talk(before)
    }

    /// Whether sending `content` from `from` to `to` at the time `now` leads
    /// from `before` to this state: the message is filed, alone, under the next
    /// message identifier.
    pub open spec fn sent(
        &self,
        before: &TwitterInk,
        now: Timestamp,
        content: String,
        from: AccountId,
        to: AccountId,
    ) -> bool {
        let id = before.message_next_id;
        &&& self.conversations@.contains_key(id)
        &&& self.conversations@[id]@ == seq![Message { content, from, to, created_at: now }]
        &&& self.conversations@ == before.conversations@.insert(id, self.conversations@[id])
        &&& self.message_next_id == id + 1
        &&& self.following == before.following
        &&& self.same_tweets(before)
    }

    /// A contract without tweets, messages or followers.
    pub fn new() -> (instance: Self)
        ensures
            instance.tweets@ == Map::<TweetId, Tweet>::empty(),
            instance.tweets_of@ == Map::<AccountId, Vec<Tweet>>::empty(),
            instance.conversations@ == Map::<MessageId, Vec<Message>>::empty(),
            instance.following@ == Map::<AccountId, Vec<AccountId>>::empty(),
            instance.tweet_next_id == 0,
            instance.message_next_id == 0,
            instance.wf(),
    {
        let instance = Self {
            tweets: Store::new(),
            tweets_of: Store::new(),
            conversations: Store::new(),
            following: Store::new(),
            tweet_next_id: 0,
            message_next_id: 0,
        };
        instance
    }

    /// Tweets `content` as `caller` at the time `now`.
    pub fn tweet(&mut self, caller: AccountId, now: Timestamp, content: String)
        requires
            old(self).tweet_next_id < i32::MAX,
        ensures
            final(self).tweeted(old(self), now, content, caller),
            old(self).wf() ==> final(self).wf(),
    {
        self._tweet(now, content, caller);
    }

    /// Tweets `content` as `from` at the time `now`.
    pub fn tweet_from(&mut self, now: Timestamp, content: String, from: AccountId)
        requires
            old(self).tweet_next_id < i32::MAX,
        ensures
            final(self).tweeted(old(self), now, content, from),
            old(self).wf() ==> final(self).wf(),
    {
        self._tweet(now, content, from);
    }

    /// Files the tweet of `from` under the next tweet identifier and makes it the
    /// one tweet listed for `from`.
    pub fn _tweet(&mut self, now: Timestamp, content: String, from: AccountId)
        requires
            old(self).tweet_next_id < i32::MAX,
        ensures
            final(self).tweeted(old(self), now, content, from),
            old(self).wf() ==> final(self).wf(),
    {
        let tweet_id = self.next_id_tweet();
        let created_at = now;
        let tweet = Tweet { tweet_id, author: from, content, created_at };
        self.tweets.insert(tweet_id, tweet.clone());
        let mut listed: Vec<Tweet> = Vec::new();
        listed.push(tweet);
        assert(listed@ == seq![tweet]);
        self.tweets_of.insert(from, listed);
    }

    /// Sends `content` from `caller` to `to` at the time `now`.
    pub fn send_message(
        &mut self,
        caller: AccountId,
        now: Timestamp,
        to: AccountId,
        content: String,
    ) -> (event: MessageSent)
        requires
            old(self).message_next_id < i32::MAX,
        ensures
            event == (MessageSent { id: old(self).message_next_id, from: caller, to }),
            final(self).sent(old(self), now, content, caller, to),
            old(self).wf() ==> final(self).wf(),
    {
        self._send_message(now, content, caller, to)
    }

    /// Sends `content` from `from` to `to` at the time `now`.
    pub fn send_message_from(
        &mut self,
        now: Timestamp,
        from: AccountId,
        to: AccountId,
        content: String,
    ) -> (event: MessageSent)
        requires
            old(self).message_next_id < i32::MAX,
        ensures
            event == (MessageSent { id: old(self).message_next_id, from, to }),
            final(self).sent(old(self), now, content, from, to),
            old(self).wf() ==> final(self).wf(),
    {
        self._send_message(now, content, from, to)
    }

    /// Files the message, alone, under the next message identifier.
    pub fn _send_message(
        &mut self,
        now: Timestamp,
        content: String,
        from: AccountId,
        to: AccountId,
    ) -> (event: MessageSent)
        requires
            old(self).message_next_id < i32::MAX,
        ensures
            event == (MessageSent { id: old(self).message_next_id, from, to }),
            final(self).sent(old(self), now, content, from, to),
            old(self).wf() ==> final(self).wf(),
    {
        let created_at = now;
        let message_id = self.next_id_message();
        let message = Message { content, from, to, created_at };
        let mut filed: Vec<Message> = Vec::new();
        filed.push(message);
        assert(filed@ == seq![message]);
        self.conversations.insert(message_id, filed);
        MessageSent { id: message_id, from, to }
    }

    /// Makes `followed` the one account that `caller` follows.
    pub fn follow(&mut self, caller: AccountId, followed: AccountId)
        ensures
            final(self).following@.contains_key(caller),
            final(self).following@[caller]@ == seq![followed],
            final(self).following@ == old(self).following@.insert(
                caller,
                final(self).following@[caller],
            ),
            final(self).conversations == old(self).conversations,
            final(self).message_next_id == old(self).message_next_id,
            final(self).same_tweets(old(self)),
            old(self).wf() ==> final(self).wf(),
    {
        let mut followed_accounts: Vec<AccountId> = Vec::new();
        followed_accounts.push(followed);
        assert(followed_accounts@ == seq![followed]);
        self.following.insert(caller, followed_accounts);
    }

    /// The tweets listed for `user`: none where nothing is listed.
    pub fn get_tweets_of(&mut self, user: AccountId) -> (tweet_of: Vec<Tweet>)
        ensures
            *final(self) == *old(self),
            tweet_of@ == (if old(self).tweets_of@.contains_key(user) {
                old(self).tweets_of@[user]@
            } else {
                Seq::<Tweet>::empty()
            }),
    {
        let mut tweet_of: Vec<Tweet> = Vec::new();
        match self.tweets_of.get(&user) {
            Some(listed) => {
                let mut i: usize = 0;
                while i < listed.len()
                    invariant
                        i <= listed@.len(),
                        tweet_of@ == listed@.take(i as int),
                    decreases listed@.len() - i,
                {
                    tweet_of.push(listed[i].clone());
                    assert(listed@.take(i + 1) == listed@.take(i as int).push(listed@[i as int]));
                    i += 1;
                }
                assert(listed@.take(i as int) == listed@);
            },
            None => {},
        }
        tweet_of
    }

    /// Hands out the next tweet identifier.
    pub fn next_id_tweet(&mut self) -> (tweet_id: TweetId)
        requires
            old(self).tweet_next_id < i32::MAX,
        ensures
            tweet_id == old(self).tweet_next_id,
            *final(self) == (TwitterInk {
                tweet_next_id: (old(self).tweet_next_id + 1) as i32,
                ..*old(self)
            }),
    {
        let tweet_id = self.tweet_next_id;
        self.tweet_next_id += 1;
        tweet_id
    }

    /// Hands out the next message identifier.
    pub fn next_id_message(&mut self) -> (message_id: MessageId)
        requires
            old(self).message_next_id < i32::MAX,
        ensures
            message_id == old(self).message_next_id,
            *final(self) == (TwitterInk {
                message_next_id: (old(self).message_next_id + 1) as i32,
                ..*old(self)
            }),
    {
        let message_id = self.message_next_id;
        self.message_next_id += 1;
        message_id
    }
}

} // verus!
