//! Destination registrations: a guild record with its verification
//! code, the code generator and the code digest, and the
//! per-destination policy a record implies.

use vstd::prelude::*;

use crate::event::EventKind;
use crate::policy::PolicyContext;
use crate::strutil::{digit_char, digit_char_exec, push_char};
use crate::textscan::is_digit_char;

verus! {

/// Name for the digest `hash_string` computes: it depends on the text
/// alone.
pub uninterp spec fn xxh3_digest(s: Seq<char>) -> Seq<char>;

/// Relies on `xxhash_rust::xxh3::xxh3_64`: a 64-bit digest of the
/// text's bytes, a function of its argument alone, rendered here in
/// decimal.
#[verifier::external_body]
pub fn hash_string(s: &str) -> (r: String)
    ensures
        r@ == xxh3_digest(s@),
{
    xxhash_rust::xxh3::xxh3_64(s.as_bytes()).to_string()
}

/// Relies on `rand::thread_rng` and `rand::Rng::gen_range`: one drawn
/// decimal digit. Nothing is assumed beyond its range.
#[verifier::external_body]
fn random_digit() -> (d: u64)
    ensures
        d < 10,
{
    rand::Rng::gen_range(&mut rand::thread_rng(), 0..10u64)
}

/// A drawn digit character.
fn random_digit_char() -> (c: char)
    ensures
        is_digit_char(c),
{
    let d = random_digit();
    let c = digit_char_exec(d);
    proof {
        assert(is_digit_char(digit_char(d as int)));
    }
    c
}

/// A well-formed verification code: three groups of three digits
/// separated by dashes.
pub open spec fn valid_code(s: Seq<char>) -> bool {
    &&& s.len() == 11
    &&& s[3] == '-'
    &&& s[7] == '-'
    &&& forall|i: int| 0 <= i < 11 && i != 3 && i != 7 ==> is_digit_char(s[i])
}

/// One registered destination: which channels it routes to, its
/// policy settings, and its verification code with the code's digest.
#[derive(Debug)]
pub struct RegisteredGuild {
    pub guild_id: u64,
    pub clan_name: Option<String>,
    pub broadcast_channel: Option<u64>,
    pub clan_chat_channel: Option<u64>,
    pub drop_price_threshold: Option<i64>,
    pub allowed_broadcast_types: Option<Vec<EventKind>>,
    pub verification_code: String,
    pub hashed_verification_code: String,
    pub verified: bool,
}

impl RegisteredGuild {
    /// A fresh, unverified registration: no channels, no policy, a
    /// newly generated verification code and its digest.
    pub fn new(guild_id: u64) -> (g: RegisteredGuild)
        ensures
            g.guild_id == guild_id,
            g.clan_name is None,
            g.broadcast_channel is None,
            g.clan_chat_channel is None,
            g.drop_price_threshold is None,
            g.allowed_broadcast_types is None,
            !g.verified,
            valid_code(g.verification_code@),
            g.hashed_verification_code@ == xxh3_digest(g.verification_code@),
    {
        let verification_code = Self::generate_code();
        let hashed_verification_code = hash_string(verification_code.as_str());
        RegisteredGuild {
            guild_id,
            clan_name: None,
            broadcast_channel: None,
            clan_chat_channel: None,
            drop_price_threshold: None,
            allowed_broadcast_types: None,
            verification_code,
            hashed_verification_code,
            verified: false,
        }
    }

    /// Draws a fresh verification code in the form `ddd-ddd-ddd`.
    pub fn generate_code() -> (code: String)
        ensures
            valid_code(code@),
    {
        let mut code = String::new();
        let mut i: usize = 0;
        while i < 9
            invariant
                0 <= i <= 9,
                code@.len() == (if i <= 2 { i as int } else if i <= 5 { i + 1 } else { i + 2 }),
                i > 2 ==> code@[3] == '-',
                i > 5 ==> code@[7] == '-',
                forall|j: int|
                    0 <= j < code@.len() && j != 3 && j != 7 ==> is_digit_char(code@[j]),
            decreases 9 - i,
        {
            let c = random_digit_char();
            push_char(&mut code, c);
            if i == 2 || i == 5 {
                push_char(&mut code, '-');
            }
            i = i + 1;
        }
        code
    }

    /// Installs a verification code that was found to be unique,
    /// together with its digest, as saving a new registration does
    /// after the uniqueness check.
    pub fn assign_code(&mut self, code: String)
        requires
            valid_code(code@),
        ensures
            final(self).verification_code@ == code@,
            final(self).hashed_verification_code@ == xxh3_digest(code@),
            valid_code(final(self).verification_code@),
            final(self).guild_id == old(self).guild_id,
            final(self).clan_name == old(self).clan_name,
            final(self).broadcast_channel == old(self).broadcast_channel,
            final(self).clan_chat_channel == old(self).clan_chat_channel,
            final(self).drop_price_threshold == old(self).drop_price_threshold,
            final(self).allowed_broadcast_types == old(self).allowed_broadcast_types,
            final(self).verified == old(self).verified,
    {
        let hashed = hash_string(code.as_str());
        self.verification_code = code;
        self.hashed_verification_code = hashed;
    }

    /// The per-destination policy this registration implies: its
    /// allow-list and its drop-value threshold.
    pub fn policy(&self) -> (p: PolicyContext)
        ensures
            p@.allowed_kinds == match self.allowed_broadcast_types {
                Some(v) => Some(v@),
                None => None::<Seq<EventKind>>,
            },
            p@.min_item_value == match self.drop_price_threshold {
                Some(t) => Some(t as int),
                None => None::<int>,
            },
    {
        let allowed_kinds: Option<Vec<EventKind>> = match &self.allowed_broadcast_types {
            None => None,
            Some(v) => {
                let n = v.len();
                let mut out: Vec<EventKind> = Vec::new();
                let mut i: usize = 0;
                while i < n
                    invariant
                        0 <= i <= n,
                        n == v@.len(),
                        out@ =~= v@.subrange(0, i as int),
                    decreases n - i,
                {
                    out.push(v[i]);
                    proof {
                        assert(out@ =~= v@.subrange(0, i + 1));
                    }
                    i = i + 1;
                }
                proof {
                    assert(out@ =~= v@);
                }
                Some(out)
            },
        };
        PolicyContext { allowed_kinds, min_item_value: self.drop_price_threshold }
    }
}

} // verus!
