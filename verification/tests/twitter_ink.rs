use dapp_contracts::account::AccountId;
use dapp_contracts::twitter_ink::{Message, MessageSent, Tweet, TwitterInk};

fn alice() -> AccountId {
    AccountId::new([1u8; 32])
}

fn bob() -> AccountId {
    AccountId::new([2u8; 32])
}

#[test]
fn twitter_starts_empty() {
    let mut twitter = TwitterInk::new();
    assert_eq!(twitter.tweet_next_id, 0);
    assert_eq!(twitter.message_next_id, 0);
    assert!(twitter.get_tweets_of(alice()).is_empty());
    assert!(twitter.tweets.entries().is_empty());
}

#[test]
fn tweet_is_filed_and_listed_for_its_author() {
    let mut twitter = TwitterInk::new();
    twitter.tweet(alice(), 1000, "hello".to_string());
    let first =
        Tweet { tweet_id: 0, author: alice(), content: "hello".to_string(), created_at: 1000 };
    assert_eq!(twitter.tweets.get(&0), Some(&first));
    assert_eq!(twitter.get_tweets_of(alice()), vec![first.clone()]);
    assert!(twitter.get_tweets_of(bob()).is_empty());
    assert_eq!(twitter.tweet_next_id, 1);
}

#[test]
fn a_later_tweet_replaces_the_listed_one() {
    let mut twitter = TwitterInk::new();
    twitter.tweet(alice(), 1000, "one".to_string());
    twitter.tweet_from(1001, "two".to_string(), bob());
    twitter._tweet(1002, "three".to_string(), alice());
    assert_eq!(
        twitter.get_tweets_of(alice()),
        vec![Tweet { tweet_id: 2, author: alice(), content: "three".to_string(), created_at: 1002 }]
    );
    assert_eq!(
        twitter.get_tweets_of(bob()),
        vec![Tweet { tweet_id: 1, author: bob(), content: "two".to_string(), created_at: 1001 }]
    );
    assert_eq!(twitter.tweets.entries().len(), 3);
    assert_eq!(twitter.tweets.get(&0).unwrap().content, "one");
    assert_eq!(twitter.tweet_next_id, 3);
}

#[test]
fn messages_are_filed_one_under_each_identifier() {
    let mut twitter = TwitterInk::new();
    assert_eq!(
        twitter.send_message(alice(), 5, bob(), "hi".to_string()),
        MessageSent { id: 0, from: alice(), to: bob() }
    );
    assert_eq!(
        twitter.send_message_from(6, bob(), alice(), "ho".to_string()),
        MessageSent { id: 1, from: bob(), to: alice() }
    );
    assert_eq!(
        twitter._send_message(7, "hm".to_string(), alice(), alice()),
        MessageSent { id: 2, from: alice(), to: alice() }
    );
    assert_eq!(
        twitter.conversations.get(&1),
        Some(&vec![Message { content: "ho".to_string(), from: bob(), to: alice(), created_at: 6 }])
    );
    assert_eq!(twitter.conversations.get(&3), None);
    assert_eq!(twitter.message_next_id, 3);
    assert_eq!(twitter.tweet_next_id, 0);
}

#[test]
fn follow_keeps_the_last_followed_account() {
    let mut twitter = TwitterInk::new();
    twitter.follow(alice(), bob());
    assert_eq!(twitter.following.get(&alice()), Some(&vec![bob()]));
    twitter.follow(alice(), alice());
    assert_eq!(twitter.following.get(&alice()), Some(&vec![alice()]));
    assert_eq!(twitter.following.get(&bob()), None);
}

#[test]
fn twitter_counters_hand_out_identifiers_in_order() {
    let mut twitter = TwitterInk::new();
    assert_eq!(twitter.next_id_tweet(), 0);
    assert_eq!(twitter.next_id_tweet(), 1);
    assert_eq!(twitter.next_id_message(), 0);
    assert_eq!(twitter.tweet_next_id, 2);
    assert_eq!(twitter.message_next_id, 1);
}
