//! The settings of the web side: the relay that credentials are issued
//! for, and how long control may be held.

use vstd::prelude::*;

verus! {

/// The settings of the web side.
#[derive(Debug)]
pub struct WebConfig {
    pub turn_realm: String,
    pub turn_port: i64,
    pub turn_secret_key: String,
    pub turn_user_name: String,
    /// How long an issued credential stays valid, in seconds.
    pub turn_ttl: i64,
    /// How long a session may hold control, in seconds.
    pub controller_ttl: i64,
}

impl Clone for WebConfig {
    fn clone(&self) -> (copy: Self)
        ensures
            copy == *self,
    {
        WebConfig {
            turn_realm: self.turn_realm.clone(),
            turn_port: self.turn_port,
            turn_secret_key: self.turn_secret_key.clone(),
            turn_user_name: self.turn_user_name.clone(),
            turn_ttl: self.turn_ttl,
            controller_ttl: self.controller_ttl,
        }
    }
}

impl WebConfig {
    /// How long a session may hold control, in seconds; a negative setting
    /// counts as zero.
    pub fn session_ttl_secs(&self) -> (secs: u64)
        ensures
            secs == if self.controller_ttl < 0 {
                0
            } else {
                self.controller_ttl as int
            },
    {
        if self.controller_ttl < 0 {
            0
        } else {
            self.controller_ttl as u64
        }
    }

    /// The settings with the given values.
    pub fn new(
        turn_realm: String,
        turn_port: i64,
        turn_secret_key: String,
        turn_user_name: String,
        turn_ttl: i64,
        controller_ttl: i64,
    ) -> (config: Self)
        ensures
            config == (WebConfig {
                turn_realm,
                turn_port,
                turn_secret_key,
                turn_user_name,
                turn_ttl,
                controller_ttl,
            }),
    {
        WebConfig {
            turn_realm,
            turn_port,
            turn_secret_key,
            turn_user_name,
            turn_ttl,
            controller_ttl,
        }
    }
}

} // verus!
