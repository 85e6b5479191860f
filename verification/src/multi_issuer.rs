//! The multi-issuer registry and the user's credential bookkeeping.

use vstd::prelude::*;

use std::collections::HashMap;

use crate::credential::{spec_show_output, Credential, ShowCredential};
use crate::error::Error;
use crate::groups::{fr_rand, spec_g1_mul, spec_g2_mul, Fr, Prng};
use crate::protocol::MimcAbc;
use crate::signature::{SecretKey, VerificationKey};

verus! {

broadcast use vstd::std_specs::hash::group_hash_axioms;

/// One issuer: its protocol instance and its key pair.
pub struct Issuer {
    pub id: usize,
    pub protocol: MimcAbc,
    pub sk: SecretKey,
    pub vk: VerificationKey,
}

impl Issuer {
    /// The protocol is well-formed and the published keys fit the secret
    /// exponent.
    pub open spec fn wf(&self) -> bool {
        &&& self.protocol.wf()
        &&& self.sk.sk == spec_g1_mul(self.protocol.pp.g, self.sk.x)
        &&& self.vk.vk_tilde == spec_g2_mul(self.protocol.pp.g_tilde, self.sk.x)
    }

    /// Sets up a fresh issuer of the given width.
    pub fn new(id: usize, num_attributes: usize, rng: &mut Prng) -> (issuer: Issuer)
        requires
            num_attributes >= 1,
        ensures
            issuer.id == id,
            issuer.wf(),
            issuer.protocol.pp.n == num_attributes,
    {
        let (protocol, sk, vk) = MimcAbc::setup(num_attributes, rng);
        Issuer { id, protocol, sk, vk }
    }
}

/// The attribute width the registry assigns to issuer `i`: the entry at
/// `i` where the list is long enough, else its last entry, else 10.
pub open spec fn spec_attr_count(widths: Seq<usize>, i: int) -> usize {
    if i < widths.len() {
        widths[i]
    } else if widths.len() > 0 {
        widths.last()
    } else {
        10
    }
}

/// A registry of issuers keyed by id.
pub struct MultiIssuerSystem {
    pub issuers: HashMap<usize, Issuer>,
}

/// The registry holds a freshly set-up issuer under id `i`: present, named
/// `i`, with the width the registry assigns to `i`.
pub open spec fn spec_registry_entry_fresh(
    sys: MultiIssuerSystem,
    widths: Seq<usize>,
    i: usize,
) -> bool {
    &&& sys.issuers@.contains_key(i)
    &&& sys.issuers@[i].id == i
    &&& sys.issuers@[i].protocol.pp.n == spec_attr_count(widths, i as int)
}

/// The entry under `id` is the same in both registries.
pub open spec fn spec_registry_entry_kept(
    new_sys: MultiIssuerSystem,
    old_sys: MultiIssuerSystem,
    id: usize,
) -> bool {
    &&& new_sys.issuers@.contains_key(id) == old_sys.issuers@.contains_key(id)
    &&& (old_sys.issuers@.contains_key(id) ==> new_sys.issuers@[id] == old_sys.issuers@[id])
}

impl MultiIssuerSystem {
    /// Every registered issuer is well-formed.
    pub open spec fn wf(&self) -> bool {
        forall|id: usize|
            self.issuers@.contains_key(id) ==> (#[trigger] self.issuers@[id]).wf()
    }

    /// An empty registry.
    pub fn new() -> (m: MultiIssuerSystem)
        ensures
            m.issuers@ == Map::<usize, Issuer>::empty(),
            m.wf(),
    {
        MultiIssuerSystem { issuers: HashMap::new() }
    }

    /// Registers an issuer under its id, replacing any previous holder.
    pub fn add_issuer(&mut self, issuer: Issuer)
        requires
            old(self).wf(),
            issuer.wf(),
        ensures
            final (self).issuers@ == old(self).issuers@.insert(issuer.id, issuer),
            final (self).wf(),
    {
        let ghost id = issuer.id;
        let ghost iss = issuer;
        self.issuers.insert(issuer.id, issuer);
        proof {
            assert forall|t: usize| self.issuers@.contains_key(t) implies (
            #[trigger] self.issuers@[t]).wf() by {
                if t == id {
                    assert(self.issuers@[t] == iss);
                } else {
                    assert(old(self).issuers@.contains_key(t));
                }
            }
        }
    }

    /// Creates `issuer_count` issuers with widths taken from
    /// `attributes_per_issuer` and registers them under ids `0 …
    /// issuer_count - 1`.
    pub fn setup_issuers(
        &mut self,
        issuer_count: usize,
        attributes_per_issuer: &Vec<usize>,
        rng: &mut Prng,
    )
        requires
            old(self).wf(),
            forall|i: int|
                0 <= i < attributes_per_issuer@.len() ==> (#[trigger] attributes_per_issuer@[i])
                    >= 1,
        ensures
            final (self).wf(),
            forall|i: usize|
                i < issuer_count ==> #[trigger] spec_registry_entry_fresh(
                    *final (self),
                    attributes_per_issuer@,
                    i,
                ),
            forall|id: usize|
                !(id < issuer_count) ==> #[trigger] spec_registry_entry_kept(
                    *final (self),
                    *old(self),
                    id,
                ),
    {
        let mut i: usize = 0;
        while i < issuer_count
            invariant
                self.wf(),
                i <= issuer_count,
                forall|t: int|
                    0 <= t < attributes_per_issuer@.len() ==> (
                    #[trigger] attributes_per_issuer@[t]) >= 1,
                forall|t: usize|
                    t < i ==> #[trigger] spec_registry_entry_fresh(
                        *self,
                        attributes_per_issuer@,
                        t,
                    ),
                forall|id: usize|
                    !(id < i) ==> #[trigger] spec_registry_entry_kept(*self, *old(self), id),
            decreases issuer_count - i,
        {
            let attr_count: usize = if i < attributes_per_issuer.len() {
                attributes_per_issuer[i]
            } else if attributes_per_issuer.len() > 0 {
                attributes_per_issuer[attributes_per_issuer.len() - 1]
            } else {
                10
            };
            let ghost prev = *self;
            let issuer = Issuer::new(i, attr_count, rng);
            self.add_issuer(issuer);
            proof {
                assert forall|t: usize|
                    t < i + 1 implies #[trigger] spec_registry_entry_fresh(
                    *self,
                    attributes_per_issuer@,
                    t,
                ) by {
                    if t < i {
                        assert(spec_registry_entry_fresh(prev, attributes_per_issuer@, t));
                    }
                }
                assert forall|id: usize|
                    !(id < i + 1) implies #[trigger] spec_registry_entry_kept(
                    *self,
                    *old(self),
                    id,
                ) by {
                    assert(spec_registry_entry_kept(prev, *old(self), id));
                }
            }
            i = i + 1;
        }
    }

    /// Looks an issuer up by id.
    pub fn get_issuer(&self, issuer_id: usize) -> (r: Option<&Issuer>)
        ensures
            match r {
                Option::Some(issuer) => self.issuers@.contains_key(issuer_id) && *issuer
                    == self.issuers@[issuer_id],
                Option::None => !self.issuers@.contains_key(issuer_id),
            },
    {
        self.issuers.get(&issuer_id)
    }
}

/// The credential at the front of the store wins: a later insert under the
/// same key shadows an earlier one.
pub open spec fn spec_cred_lookup(
    s: Seq<(usize, usize, Credential)>,
    issuer_id: usize,
    credential_id: usize,
) -> Option<Credential>
    decreases s.len(),
{
    if s.len() == 0 {
        Option::None
    } else if s[0].0 == issuer_id && s[0].1 == credential_id {
        Option::Some(s[0].2)
    } else {
        spec_cred_lookup(s.drop_first(), issuer_id, credential_id)
    }
}

/// A user's credentials, keyed by `(issuer id, credential id)`.
pub struct CredentialMap {
    pub entries: Vec<(usize, usize, Credential)>,
}

impl CredentialMap {
    /// The credential stored under the key, if any.
    pub open spec fn spec_get(&self, issuer_id: usize, credential_id: usize) -> Option<Credential> {
        spec_cred_lookup(self.entries@, issuer_id, credential_id)
    }

    /// An empty store.
    pub fn new() -> (m: CredentialMap)
        ensures
            m.entries@.len() == 0,
            forall|a: usize, b: usize| #[trigger] m.spec_get(a, b) is None,
    {
        let m = CredentialMap { entries: Vec::new() };
        proof {
            assert forall|a: usize, b: usize| #[trigger] m.spec_get(a, b) is None by {
                assert(m.entries@.len() == 0);
            }
        }
        m
    }

    /// Stores a credential under the key, shadowing any previous holder.
    pub fn insert(&mut self, issuer_id: usize, credential_id: usize, credential: Credential)
        ensures
            final (self).spec_get(issuer_id, credential_id) == Option::Some(credential),
            forall|a: usize, b: usize|
                !(a == issuer_id && b == credential_id) ==> #[trigger] final (self).spec_get(a, b)
                    == old(self).spec_get(a, b),
    {
        let ghost old_entries = self.entries@;
        self.entries.insert(0, (issuer_id, credential_id, credential));
        proof {
            assert(self.entries@.drop_first() =~= old_entries);
            assert forall|a: usize, b: usize|
                !(a == issuer_id && b == credential_id) implies #[trigger] self.spec_get(a, b)
                == old(self).spec_get(a, b) by {
                assert(spec_cred_lookup(self.entries@, a, b) == spec_cred_lookup(
                    self.entries@.drop_first(),
                    a,
                    b,
                ));
            }
        }
    }

    /// Retrieves the credential stored under the key.
    pub fn get(&self, issuer_id: usize, credential_id: usize) -> (r: Option<&Credential>)
        ensures
            match r {
                Option::Some(c) => self.spec_get(issuer_id, credential_id) == Option::Some(*c),
                Option::None => self.spec_get(issuer_id, credential_id) is None,
            },
    {
        let mut i: usize = 0;
        proof {
            assert(self.entries@.skip(0) =~= self.entries@);
        }
        while i < self.entries.len()
            invariant
                i <= self.entries@.len(),
                spec_cred_lookup(self.entries@.skip(i as int), issuer_id, credential_id)
                    == spec_cred_lookup(self.entries@, issuer_id, credential_id),
            decreases self.entries@.len() - i,
        {
            proof {
                assert(self.entries@.skip(i as int).len() > 0);
                assert(self.entries@.skip(i as int)[0] == self.entries@[i as int]);
            }
            let entry = &self.entries[i];
            if entry.0 == issuer_id && entry.1 == credential_id {
                return Option::Some(&entry.2);
            }
            proof {
                assert(self.entries@.skip(i as int).drop_first() =~= self.entries@.skip(
                    i + 1 as int,
                ));
            }
            i = i + 1;
        }
        proof {
            assert(self.entries@.skip(self.entries@.len() as int).len() == 0);
        }
        Option::None
    }
}

/// The user's stored credentials fit the registry: each is issued by a
/// registered issuer, has that issuer's width, and carries the user's own
/// identifier at index 0.
pub open spec fn spec_user_consistent(u: User, sys: MultiIssuerSystem) -> bool {
    forall|a: usize, b: usize|
        #[trigger] u.credentials.spec_get(a, b) matches Some(c) ==> {
            &&& sys.issuers@.contains_key(a)
            &&& c.messages@.len() == sys.issuers@[a].protocol.pp.n
            &&& c.messages@[0] == u.id
        }
}

/// The presentation at index `j` is a show, by the coins at `j`, of the
/// credential the user stores under the key at `j`, against the parameters
/// of the issuer that key names.
pub open spec fn spec_shown_from_store_at(
    u: User,
    sys: MultiIssuerSystem,
    keys: Seq<(usize, usize)>,
    ps: Seq<ShowCredential>,
    coins: Seq<(Fr, Fr)>,
    j: int,
) -> bool {
    spec_show_output(
        u.credentials.spec_get(keys[j].0, keys[j].1).unwrap(),
        sys.issuers@[keys[j].0].protocol.pp,
        coins[j].0,
        coins[j].1,
        ps[j],
    )
}

/// Every presentation derives, by the coin pair at its index, from the
/// stored credential its key names.
pub open spec fn spec_shown_from_store(
    u: User,
    sys: MultiIssuerSystem,
    keys: Seq<(usize, usize)>,
    ps: Seq<ShowCredential>,
    coins: Seq<(Fr, Fr)>,
) -> bool {
    &&& coins.len() == keys.len()
    &&& ps.len() == keys.len()
    &&& forall|j: int|
        0 <= j < keys.len() ==> #[trigger] spec_shown_from_store_at(u, sys, keys, ps, coins, j)
}

/// A user: a random identifier and the credentials obtained so far.
pub struct User {
    pub id: Fr,
    pub credentials: CredentialMap,
}

impl User {
    /// A fresh user with a random identifier and no credentials.
    pub fn new(rng: &mut Prng) -> (u: User)
        ensures
            u.credentials.entries@.len() == 0,
            forall|a: usize, b: usize| #[trigger] u.credentials.spec_get(a, b) is None,
    {
        let id = fr_rand(rng);
        User { id, credentials: CredentialMap::new() }
    }

    /// Requests a credential over `[self.id] ∥ attributes` from the given
    /// issuer and stores it under `(issuer_id, credential_id)`. Fails when
    /// the issuer is unknown, when the widths disagree, or when the issuer
    /// rejects the opening proof.
    pub fn obtain_credential(
        &mut self,
        issuer_id: usize,
        credential_id: usize,
        issuer_system: &MultiIssuerSystem,
        attributes: Vec<Fr>,
        rng: &mut Prng,
    ) -> (res: Result<(), Error>)
        requires
            issuer_system.wf(),
        ensures
            !issuer_system.issuers@.contains_key(issuer_id) ==> (res matches Err(e)
                && e matches Error::Other(m) && m@ == "Issuer not found"@),
            issuer_system.issuers@.contains_key(issuer_id) && attributes@.len() + 1
                != issuer_system.issuers@[issuer_id].protocol.pp.n ==> (res matches Err(e)
                && e matches Error::Other(m) && m@ == "Attribute count mismatch"@),
            issuer_system.issuers@.contains_key(issuer_id) && attributes@.len() + 1
                == issuer_system.issuers@[issuer_id].protocol.pp.n ==> (res is Ok
                || res matches Err(Error::InvalidProof)),
            res is Err ==> final (self).credentials == old(self).credentials,
            final (self).id == old(self).id,
            res is Ok ==> {
                &&& issuer_system.issuers@.contains_key(issuer_id)
                &&& attributes@.len() + 1 == issuer_system.issuers@[issuer_id].protocol.pp.n
                &&& final (self).credentials.spec_get(issuer_id, credential_id) matches Some(c) && {
                    &&& c.signed()
                    &&& c.messages@ == seq![old(self).id] + attributes@
                    &&& c.messages@.len() == issuer_system.issuers@[issuer_id].protocol.pp.n
                }
                &&& forall|a: usize, b: usize|
                    !(a == issuer_id && b == credential_id)
                        ==> #[trigger] final (self).credentials.spec_get(a, b) == old(
                        self,
                    ).credentials.spec_get(a, b)
            },
    {
        let issuer = match issuer_system.get_issuer(issuer_id) {
            Option::None => {
                return Result::Err(Error::Other("Issuer not found".to_owned()));
            },
            Option::Some(issuer) => issuer,
        };
        let mut all_attributes: Vec<Fr> = Vec::new();
        all_attributes.push(self.id);
        let mut i: usize = 0;
        while i < attributes.len()
            invariant
                i <= attributes@.len(),
                all_attributes@ == seq![old(self).id] + attributes@.subrange(0, i as int),
                self == old(self),
            decreases attributes@.len() - i,
        {
            let ghost prefix = all_attributes@;
            all_attributes.push(attributes[i]);
            proof {
                assert(seq![old(self).id] + attributes@.subrange(0, i + 1 as int) =~= prefix.push(
                    attributes@[i as int],
                ));
            }
            i = i + 1;
        }
        proof {
            assert(attributes@.subrange(0, attributes@.len() as int) =~= attributes@);
        }
        if all_attributes.len() != issuer.protocol.pp.n {
            return Result::Err(Error::Other("Attribute count mismatch".to_owned()));
        }
        let r = fr_rand(rng);
        let mut credential = Credential::new(
            &issuer.protocol.ck,
            &issuer.protocol.pp,
            &all_attributes,
            r,
        );
        let opening = credential.prove_commitment(&issuer.protocol.pp, rng);
        match issuer.protocol.issue(&opening, &issuer.sk, rng) {
            Result::Err(e) => Result::Err(e),
            Result::Ok(signature) => {
                credential.add_signature(signature);
                self.credentials.insert(issuer_id, credential_id, credential);
                Result::Ok(())
            },
        }
    }

    /// Shows the credentials stored under the given keys, each against its
    /// issuer's parameters, with fresh coins per credential.
    pub fn show_credentials(
        &self,
        credential_keys: &Vec<(usize, usize)>,
        issuer_system: &MultiIssuerSystem,
        rng: &mut Prng,
    ) -> (res: Result<Vec<ShowCredential>, Error>)
        requires
            issuer_system.wf(),
            spec_user_consistent(*self, *issuer_system),
        ensures
            res matches Ok(ps) ==> ps@.len() == credential_keys@.len(),
            res matches Ok(ps) ==> (forall|j: int|
                0 <= j < credential_keys@.len() ==> ((#[trigger] self.credentials.spec_get(
                    credential_keys@[j].0,
                    credential_keys@[j].1,
                )) matches Some(c) && c.signed())),
            res matches Ok(ps) ==> (exists|coins: Seq<(Fr, Fr)>|
                #[trigger] spec_shown_from_store(
                    *self,
                    *issuer_system,
                    credential_keys@,
                    ps@,
                    coins,
                )),
            res is Err ==> (exists|j: int|
                0 <= j < credential_keys@.len() && !((#[trigger] self.credentials.spec_get(
                    credential_keys@[j].0,
                    credential_keys@[j].1,
                )) matches Some(c) && c.signed())),
    {
        let mut presentations: Vec<ShowCredential> = Vec::new();
        let ghost mut coins_seq: Seq<(Fr, Fr)> = Seq::empty();
        let mut i: usize = 0;
        while i < credential_keys.len()
            invariant
                issuer_system.wf(),
                spec_user_consistent(*self, *issuer_system),
                i <= credential_keys@.len(),
                presentations@.len() == i,
                coins_seq.len() == i,
                forall|j: int|
                    0 <= j < i ==> ((#[trigger] self.credentials.spec_get(
                        credential_keys@[j].0,
                        credential_keys@[j].1,
                    )) matches Some(c) && c.signed()),
                forall|j: int|
                    0 <= j < i ==> #[trigger] spec_shown_from_store_at(
                        *self,
                        *issuer_system,
                        credential_keys@,
                        presentations@,
                        coins_seq,
                        j,
                    ),
            decreases credential_keys@.len() - i,
        {
            let key = credential_keys[i];
            let credential = match self.credentials.get(key.0, key.1) {
                Option::None => {
                    return Result::Err(Error::Other("Credential not found".to_owned()));
                },
                Option::Some(c) => c,
            };
            let issuer = match issuer_system.get_issuer(key.0) {
                Option::None => {
                    return Result::Err(Error::Other("Issuer not found".to_owned()));
                },
                Option::Some(issuer) => issuer,
            };
            proof {
                assert(self.credentials.spec_get(key.0, key.1) matches Some(c));
            }
            let delta_r = fr_rand(rng);
            let delta_u = fr_rand(rng);
            match credential.show(&issuer.protocol.pp, &delta_r, &delta_u, rng) {
                Result::Err(e) => {
                    return Result::Err(e);
                },
                Result::Ok(presentation) => {
                    let ghost old_pres = presentations@;
                    let ghost old_coins = coins_seq;
                    presentations.push(presentation);
                    proof {
                        coins_seq = coins_seq.push((delta_r, delta_u));
                        assert forall|j: int|
                            0 <= j < i + 1 implies #[trigger] spec_shown_from_store_at(
                            *self,
                            *issuer_system,
                            credential_keys@,
                            presentations@,
                            coins_seq,
                            j,
                        ) by {
                            if j < i {
                                assert(spec_shown_from_store_at(
                                    *self,
                                    *issuer_system,
                                    credential_keys@,
                                    old_pres,
                                    old_coins,
                                    j,
                                ));
                                assert(presentations@[j] == old_pres[j]);
                                assert(coins_seq[j] == old_coins[j]);
                            } else {
                                assert(spec_show_output(
                                    *credential,
                                    issuer.protocol.pp,
                                    delta_r,
                                    delta_u,
                                    presentations@[j],
                                ));
                                assert(self.credentials.spec_get(
                                    credential_keys@[j].0,
                                    credential_keys@[j].1,
                                ).unwrap() == *credential);
                            }
                        }
                    }
                },
            }
            i = i + 1;
        }
        let res: Result<Vec<ShowCredential>, Error> = Result::Ok(presentations);
        proof {
            if let Result::Ok(ps) = &res {
                assert(spec_shown_from_store(
                    *self,
                    *issuer_system,
                    credential_keys@,
                    ps@,
                    coins_seq,
                ));
            }
        }
        res
    }
}

} // verus!
