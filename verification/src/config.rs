//! The generator points of the anonymous scheme, and the commitments built
//! on them.

use vstd::prelude::*;
use crate::curve::{g1_is_member, g1_member};
use crate::host::{g1_add, g1_hash, g1_mul, g1_product, g1_sum, hash_to_g1};

verus! {

/// The message hashed to the vote generator: `VOTE_GENERATOR`.
pub const VOTE_GENERATOR: [u8; 14] = [
    0x56, 0x4f, 0x54, 0x45, 0x5f, 0x47, 0x45, 0x4e, 0x45, 0x52, 0x41, 0x54, 0x4f, 0x52,
];

/// The domain separation tag of the vote generator: `VOTE_COMMITMENT`.
pub const VOTE_COMMITMENT: [u8; 15] = [
    0x56, 0x4f, 0x54, 0x45, 0x5f, 0x43, 0x4f, 0x4d, 0x4d, 0x49, 0x54, 0x4d, 0x45, 0x4e, 0x54,
];

/// The message hashed to the seed generator: `SEED_GENERATOR`.
pub const SEED_GENERATOR: [u8; 14] = [
    0x53, 0x45, 0x45, 0x44, 0x5f, 0x47, 0x45, 0x4e, 0x45, 0x52, 0x41, 0x54, 0x4f, 0x52,
];

/// The domain separation tag of the seed generator: `VOTE_SEED`.
pub const VOTE_SEED: [u8; 9] = [0x56, 0x4f, 0x54, 0x45, 0x5f, 0x53, 0x45, 0x45, 0x44];

/// The bytes of `text`, as a vector.
fn to_vec<const N: usize>(text: &[u8; N]) -> (bytes: Vec<u8>)
    ensures
        bytes@ == text@,
{
    let mut bytes: Vec<u8> = Vec::new();
    let mut i: usize = 0;
    while i < N
        invariant
            i <= N,
            text@.len() == N,
            bytes@ == text@.subrange(0, i as int),
        decreases N - i,
    {
        bytes.push(text[i]);
        assert(bytes@ =~= text@.subrange(0, i + 1));
        i += 1;
    }
    assert(bytes@ =~= text@);
    bytes
}

/// The configuration of anonymous voting for one project: the generator `g`
/// that votes are committed under, the generator `h` that seeds are committed
/// under, and the key with which voters encrypt their votes off chain.
///
/// Both generators are members of G1 in every value of this type.
pub struct AnonymousVoteConfig {
    vote_generator_point: [u8; 96],
    seed_generator_point: [u8; 96],
    public_key: String,
}

/// What a configuration holds.
pub struct ConfigView {
    pub vote_generator_point: Seq<u8>,
    pub seed_generator_point: Seq<u8>,
    pub public_key: Seq<char>,
}

impl View for AnonymousVoteConfig {
    type V = ConfigView;

    closed spec fn view(&self) -> ConfigView {
        ConfigView {
            vote_generator_point: self.vote_generator_point@,
            seed_generator_point: self.seed_generator_point@,
            public_key: self.public_key@,
        }
    }
}

/// The configuration that setup derives for a public key: each generator is
/// hashed to the curve from its own message under its own tag.
pub open spec fn derived_config(public_key: Seq<char>) -> ConfigView {
    ConfigView {
        vote_generator_point: g1_hash(VOTE_GENERATOR@, VOTE_COMMITMENT@),
        seed_generator_point: g1_hash(SEED_GENERATOR@, VOTE_SEED@),
        public_key,
    }
}

/// The commitment to `value` under `seed`: `g * value + h * seed`.
pub open spec fn commitment(config: ConfigView, value: u128, seed: u128) -> Seq<u8> {
    g1_sum(
        g1_product(config.vote_generator_point, value),
        g1_product(config.seed_generator_point, seed),
    )
}

impl AnonymousVoteConfig {
    #[verifier::type_invariant]
    pub closed spec fn generators_in_group(self) -> bool {
        &&& g1_member(self.vote_generator_point@)
        &&& g1_member(self.seed_generator_point@)
    }

    /// Derives the two generators and keeps them with `public_key`.
    pub fn derive(env: &soroban_sdk::Env, public_key: String) -> (config: AnonymousVoteConfig)
        ensures
            config@ == derived_config(public_key@),
    {
        let vote_generator_point = hash_to_g1(
            env,
            &to_vec(&VOTE_GENERATOR),
            &to_vec(&VOTE_COMMITMENT),
        );
        let seed_generator_point = hash_to_g1(env, &to_vec(&SEED_GENERATOR), &to_vec(&VOTE_SEED));
        AnonymousVoteConfig { vote_generator_point, seed_generator_point, public_key }
    }

    /// A configuration with the given generators, if both are members of G1.
    pub fn from_parts(
        env: &soroban_sdk::Env,
        vote_generator_point: [u8; 96],
        seed_generator_point: [u8; 96],
        public_key: String,
    ) -> (config: Option<AnonymousVoteConfig>)
        ensures
            config is Some <==> g1_member(vote_generator_point@) && g1_member(
                seed_generator_point@,
            ),
            config matches Some(c) ==> c@ == (ConfigView {
                vote_generator_point: vote_generator_point@,
                seed_generator_point: seed_generator_point@,
                public_key: public_key@,
            }),
    {
        if g1_is_member(env, &vote_generator_point) && g1_is_member(env, &seed_generator_point) {
            Some(AnonymousVoteConfig { vote_generator_point, seed_generator_point, public_key })
        } else {
            None
        }
    }

    /// The generator that votes are committed under.
    pub fn vote_generator_point(&self) -> (point: [u8; 96])
        ensures
            point@ == self@.vote_generator_point,
            g1_member(point@),
    {
        proof {
            use_type_invariant(self);
        }
        self.vote_generator_point
    }

    /// The generator that seeds are committed under.
    pub fn seed_generator_point(&self) -> (point: [u8; 96])
        ensures
            point@ == self@.seed_generator_point,
            g1_member(point@),
    {
        proof {
            use_type_invariant(self);
        }
        self.seed_generator_point
    }

    /// The key with which voters encrypt their votes.
    pub fn public_key(&self) -> (key: &String)
        ensures
            key@ == self@.public_key,
    {
        &self.public_key
    }

    /// A copy of this configuration.
    pub fn duplicate(&self) -> (copy: AnonymousVoteConfig)
        ensures
            copy@ == self@,
    {
        proof {
            use_type_invariant(self);
        }
        AnonymousVoteConfig {
            vote_generator_point: self.vote_generator_point,
            seed_generator_point: self.seed_generator_point,
            public_key: self.public_key.clone(),
        }
    }

    /// Commits to `value` under `seed`.
    pub fn commit(&self, env: &soroban_sdk::Env, value: u128, seed: u128) -> (point: [u8; 96])
        ensures
            point@ == commitment(self@, value, seed),
            g1_member(point@),
    {
        proof {
            use_type_invariant(self);
        }
        let vote_point = g1_mul(env, &self.vote_generator_point, value);
        let seed_point = g1_mul(env, &self.seed_generator_point, seed);
        g1_add(env, &vote_point, &seed_point)
    }
}

} // verus!
