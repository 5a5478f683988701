//! The user pool's signing keys: the key set, lookup of a key by its id,
//! and the order in which the sources of keys are consulted.
use vstd::prelude::*;

verus! {

/// The claims of a Cognito ID token that this service reads.
#[derive(Debug, Clone)]
pub struct Claims {
    /// Audience.
    pub aud: String,
    /// Expiration time, as a UTC timestamp.
    pub exp: usize,
    /// Issued at, as a UTC timestamp.
    pub iat: usize,
    /// Issuer.
    pub iss: String,
    /// Subject: whom the token refers to.
    pub sub: String,
}

/// One JSON Web Key of the user pool's key set.
#[derive(Debug, Clone)]
pub struct Jwk {
    pub alg: String,
    pub e: String,
    pub kid: String,
    pub kty: String,
    pub n: String,
    /// The key's intended use (the member `use` of the JSON object).
    pub key_use: String,
}

/// A JSON Web Key Set, as the user pool publishes it.
#[derive(Debug, Clone)]
pub struct Jwks {
    pub keys: Vec<Jwk>,
}

/// A key together with the key set it was taken from.
#[derive(Debug, Clone)]
pub struct JwksResult {
    pub jwk: Jwk,
    pub jwks: Jwks,
}

/// The abstract value of a key: its six text members.
pub struct JwkView {
    pub alg: Seq<char>,
    pub e: Seq<char>,
    pub kid: Seq<char>,
    pub kty: Seq<char>,
    pub n: Seq<char>,
    pub key_use: Seq<char>,
}

/// The abstract value of the claims.
pub struct ClaimsView {
    pub aud: Seq<char>,
    pub exp: nat,
    pub iat: nat,
    pub iss: Seq<char>,
    pub sub: Seq<char>,
}

impl View for Claims {
    type V = ClaimsView;

    open spec fn view(&self) -> ClaimsView {
        ClaimsView {
            aud: self.aud@,
            exp: self.exp as nat,
            iat: self.iat as nat,
            iss: self.iss@,
            sub: self.sub@,
        }
    }
}

impl View for Jwk {
    type V = JwkView;

    open spec fn view(&self) -> JwkView {
        JwkView {
            alg: self.alg@,
            e: self.e@,
            kid: self.kid@,
            kty: self.kty@,
            n: self.n@,
            key_use: self.key_use@,
        }
    }
}

impl View for Jwks {
    type V = Seq<JwkView>;

    open spec fn view(&self) -> Seq<JwkView> {
        self.keys@.map_values(|k: Jwk| k@)
    }
}

impl View for JwksResult {
    type V = (JwkView, Seq<JwkView>);

    open spec fn view(&self) -> (JwkView, Seq<JwkView>) {
        (self.jwk@, self.jwks@)
    }
}

/// The abstract value of an optional key set.
pub open spec fn opt_keys(cache: Option<Jwks>) -> Option<Seq<JwkView>> {
    match cache {
        Some(j) => Some(j@),
        None => None,
    }
}

/// The first key of `keys` whose key id is `kid`, if there is one.
pub open spec fn key_with_kid(keys: Seq<JwkView>, kid: Seq<char>) -> Option<JwkView>
    decreases keys.len(),
{
    if keys.len() == 0 {
        None
    } else if keys[0].kid == kid {
        Some(keys[0])
    } else {
        key_with_kid(keys.drop_first(), kid)
    }
}

impl Claims {
    /// A copy of the claims.
    pub fn duplicate(&self) -> (r: Claims)
        ensures
            r@ == self@,
    {
        Claims {
            aud: self.aud.clone(),
            exp: self.exp,
            iat: self.iat,
            iss: self.iss.clone(),
            sub: self.sub.clone(),
        }
    }
}

impl Jwk {
    /// A copy of the key.
    pub fn duplicate(&self) -> (r: Jwk)
        ensures
            r@ == self@,
    {
        Jwk {
            alg: self.alg.clone(),
            e: self.e.clone(),
            kid: self.kid.clone(),
            kty: self.kty.clone(),
            n: self.n.clone(),
            key_use: self.key_use.clone(),
        }
    }

    /// Whether two keys have the same members.
    pub fn same_as(&self, other: &Jwk) -> (r: bool)
        ensures
            r == (self@ == other@),
    {
        self.alg == other.alg && self.e == other.e && self.kid == other.kid && self.kty
            == other.kty && self.n == other.n && self.key_use == other.key_use
    }
}

impl Jwks {
    /// A copy of the key set.
    pub fn duplicate(&self) -> (r: Jwks)
        ensures
            r@ == self@,
    {
        let mut keys: Vec<Jwk> = Vec::new();
        let mut i: usize = 0;
        while i < self.keys.len()
            invariant
                i <= self.keys.len(),
                keys@.len() == i,
                forall|j: int| 0 <= j < i ==> #[trigger] keys@[j]@ == self.keys@[j]@,
            decreases self.keys.len() - i,
        {
            keys.push(self.keys[i].duplicate());
            i = i + 1;
        }
        let r = Jwks { keys };
        assert(r@ =~= self@);
        r
    }

    /// Whether two key sets hold the same keys in the same order.
    pub fn same_as(&self, other: &Jwks) -> (r: bool)
        ensures
            r == (self@ == other@),
    {
        if self.keys.len() != other.keys.len() {
            assert(self@.len() != other@.len());
            return false;
        }
        let mut i: usize = 0;
        while i < self.keys.len()
            invariant
                i <= self.keys.len(),
                self.keys.len() == other.keys.len(),
                forall|j: int| 0 <= j < i ==> #[trigger] self.keys@[j]@ == other.keys@[j]@,
            decreases self.keys.len() - i,
        {
            if !self.keys[i].same_as(&other.keys[i]) {
                assert(self@[i as int] != other@[i as int]);
                return false;
            }
            i = i + 1;
        }
        assert(self@ =~= other@);
        true
    }
}

/// The first key of `jwks` whose key id is `kid`, copied out.
pub fn find_jwk(jwks: &Jwks, kid: &String) -> (r: Option<Jwk>)
    ensures
        match r {
            Some(k) => key_with_kid(jwks@, kid@) == Some(k@),
            None => key_with_kid(jwks@, kid@) is None,
        },
        r is None <==> forall|i: int| 0 <= i < jwks@.len() ==> (#[trigger] jwks@[i]).kid != kid@,
{
    let ghost keys = jwks@;
    let mut i: usize = 0;
    assert(keys.skip(0) =~= keys);
    while i < jwks.keys.len()
        invariant
            keys == jwks@,
            i <= jwks.keys.len(),
            keys.len() == jwks.keys.len(),
            key_with_kid(keys, kid@) == key_with_kid(keys.skip(i as int), kid@),
            forall|j: int| 0 <= j < i ==> (#[trigger] keys[j]).kid != kid@,
        decreases jwks.keys.len() - i,
    {
        let ghost rest = keys.skip(i as int);
        assert(rest[0] == keys[i as int]);
        if jwks.keys[i].kid == *kid {
            return Some(jwks.keys[i].duplicate());
        }
        assert(rest.drop_first() =~= keys.skip(i + 1));
        i = i + 1;
    }
    assert(keys.skip(i as int).len() == 0);
    None
}

/// What the lookup of a signing key has learnt from one of its sources.
pub enum JwkEvent {
    /// The key set held in memory, if any.
    Cached(Option<Jwks>),
    /// The key set read back from the bucket, or `None` where the read failed.
    Stored(Option<Jwks>),
    /// The key set fetched from the user pool's well-known address.
    Fetched(Jwks),
}

/// What the lookup of a signing key does next.
pub enum JwkAction {
    /// Hand out this key and key set.
    Found(JwksResult),
    /// Read the key set kept in the bucket.
    ReadStore,
    /// Fetch the key set from the user pool.
    FetchRemote,
    /// Write the key set to the bucket, then hand out this key and key set.
    StoreAndReturn(JwksResult),
    /// The user pool publishes no key with this id. The service treats this as a
    /// misconfiguration and stops (it panics); nothing is written to the bucket.
    NoSuchKey,
}

/// The abstract value of a [`JwkEvent`].
pub enum JwkEventView {
    Cached(Option<Seq<JwkView>>),
    Stored(Option<Seq<JwkView>>),
    Fetched(Seq<JwkView>),
}

/// The abstract value of a [`JwkAction`].
pub enum JwkActionView {
    Found(JwkView, Seq<JwkView>),
    ReadStore,
    FetchRemote,
    StoreAndReturn(JwkView, Seq<JwkView>),
    NoSuchKey,
}

impl View for JwkEvent {
    type V = JwkEventView;

    open spec fn view(&self) -> JwkEventView {
        match self {
            JwkEvent::Cached(c) => JwkEventView::Cached(opt_keys(*c)),
            JwkEvent::Stored(s) => JwkEventView::Stored(opt_keys(*s)),
            JwkEvent::Fetched(f) => JwkEventView::Fetched(f@),
        }
    }
}

impl View for JwkAction {
    type V = JwkActionView;

    open spec fn view(&self) -> JwkActionView {
        match self {
            JwkAction::Found(r) => JwkActionView::Found(r.jwk@, r.jwks@),
            JwkAction::ReadStore => JwkActionView::ReadStore,
            JwkAction::FetchRemote => JwkActionView::FetchRemote,
            JwkAction::StoreAndReturn(r) => JwkActionView::StoreAndReturn(r.jwk@, r.jwks@),
            JwkAction::NoSuchKey => JwkActionView::NoSuchKey,
        }
    }
}

/// The lookup of the key `kid`: the cache first, then the bucket, then the user pool.
/// A source that holds the key answers; a source that does not, or that could not be
/// read, passes the lookup on; a key set fetched from the user pool is written to the
/// bucket before its key is handed out.
pub open spec fn jwk_step(kid: Seq<char>, event: JwkEventView) -> JwkActionView {
    match event {
        JwkEventView::Cached(Some(ks)) => match key_with_kid(ks, kid) {
            Some(k) => JwkActionView::Found(k, ks),
            None => JwkActionView::ReadStore,
        },
        JwkEventView::Cached(None) => JwkActionView::ReadStore,
        JwkEventView::Stored(Some(ks)) => match key_with_kid(ks, kid) {
            Some(k) => JwkActionView::Found(k, ks),
            None => JwkActionView::FetchRemote,
        },
        JwkEventView::Stored(None) => JwkActionView::FetchRemote,
        JwkEventView::Fetched(ks) => match key_with_kid(ks, kid) {
            Some(k) => JwkActionView::StoreAndReturn(k, ks),
            None => JwkActionView::NoSuchKey,
        },
    }
}

/// The key and key set that an action hands out, if it hands any out.
pub open spec fn served_key(a: JwkActionView) -> Option<(JwkView, Seq<JwkView>)> {
    match a {
        JwkActionView::Found(k, ks) => Some((k, ks)),
        JwkActionView::StoreAndReturn(k, ks) => Some((k, ks)),
        _ => None,
    }
}

/// Decides the next move of the lookup of the key `expected_kid`, from what the
/// last source consulted gave.
pub fn next_jwk_action(expected_kid: &String, event: JwkEvent) -> (a: JwkAction)
    ensures
        a@ == jwk_step(expected_kid@, event@),
{
    match event {
        JwkEvent::Cached(Some(jwks)) => match find_jwk(&jwks, expected_kid) {
            Some(jwk) => JwkAction::Found(JwksResult { jwk, jwks }),
            None => JwkAction::ReadStore,
        },
        JwkEvent::Cached(None) => JwkAction::ReadStore,
        JwkEvent::Stored(Some(jwks)) => match find_jwk(&jwks, expected_kid) {
            Some(jwk) => JwkAction::Found(JwksResult { jwk, jwks }),
            None => JwkAction::FetchRemote,
        },
        JwkEvent::Stored(None) => JwkAction::FetchRemote,
        JwkEvent::Fetched(jwks) => match find_jwk(&jwks, expected_kid) {
            Some(jwk) => JwkAction::StoreAndReturn(JwksResult { jwk, jwks }),
            None => JwkAction::NoSuchKey,
        },
    }
}

/// The cache after a refresh with `current`: it holds `current`.
pub open spec fn refreshed(cache: Option<Seq<JwkView>>, current: Seq<JwkView>) -> Option<
    Seq<JwkView>,
> {
    Some(current)
}

/// Whether a refresh with `current` writes to the cache: exactly when the cache does
/// not already hold `current`.
pub open spec fn refresh_writes(cache: Option<Seq<JwkView>>, current: Seq<JwkView>) -> bool {
    cache != Some(current)
}

/// Whether the cache already holds `current`.
pub fn cache_is_current(cache: &Option<Jwks>, current: &Jwks) -> (r: bool)
    ensures
        r == !refresh_writes(opt_keys(*cache), current@),
{
    match cache {
        Some(previous) => previous.same_as(current),
        None => false,
    }
}

/// Puts the key set that the last request was served with into the cache, unless the
/// cache holds it already; says whether it wrote.
pub fn refresh_cached_jwks(cache: &mut Option<Jwks>, current: Jwks) -> (written: bool)
    ensures
        opt_keys(*final(cache)) == refreshed(opt_keys(*old(cache)), current@),
        written == refresh_writes(opt_keys(*old(cache)), current@),
        !written ==> *final(cache) == *old(cache),
{
    if cache_is_current(cache, &current) {
        false
    } else {
        *cache = Some(current);
        true
    }
}

/// A key found by its id has that id and belongs to the set it was looked up in,
/// and a set yields a key for an id exactly when one of its keys has that id.
pub proof fn lemma_key_with_kid(keys: Seq<JwkView>, kid: Seq<char>)
    ensures
        key_with_kid(keys, kid) is Some <==> exists|i: int|
            0 <= i < keys.len() && (#[trigger] keys[i]).kid == kid,
        key_with_kid(keys, kid) matches Some(k) ==> k.kid == kid && keys.contains(k),
    decreases keys.len(),
{
    if keys.len() > 0 {
        let rest = keys.drop_first();
        lemma_key_with_kid(rest, kid);
        if keys[0].kid != kid {
            if exists|i: int| 0 <= i < keys.len() && (#[trigger] keys[i]).kid == kid {
                let i = choose|i: int| 0 <= i < keys.len() && (#[trigger] keys[i]).kid == kid;
                assert(rest[i - 1] == keys[i]);
            }
            if let Some(k) = key_with_kid(rest, kid) {
                let j = choose|j: int| 0 <= j < rest.len() && rest[j] == k;
                assert(keys[j + 1] == k);
            }
        }
    }
}

/// Every key that a lookup hands out, from whichever source, carries the key id that
/// was asked for and belongs to the key set handed out with it.
pub proof fn lemma_served_key_has_kid(kid: Seq<char>, event: JwkEventView)
    ensures
        jwk_step(kid, event) matches JwkActionView::Found(k, ks) ==> k.kid == kid
            && ks.contains(k),
        jwk_step(kid, event) matches JwkActionView::StoreAndReturn(k, ks) ==> k.kid == kid
            && ks.contains(k),
{
    match event {
        JwkEventView::Cached(Some(ks)) => lemma_key_with_kid(ks, kid),
        JwkEventView::Stored(Some(ks)) => lemma_key_with_kid(ks, kid),
        JwkEventView::Fetched(ks) => lemma_key_with_kid(ks, kid),
        _ => {},
    }
}

/// The lookup only moves forward: the cache hands on to the bucket, the bucket to the
/// user pool, and what the user pool gives ends the lookup; so a lookup consults each
/// source at most once and ends after at most three steps.
pub proof fn lemma_lookup_moves_forward(kid: Seq<char>, event: JwkEventView)
    ensures
        event is Cached ==> (jwk_step(kid, event) is Found || jwk_step(kid, event) is ReadStore),
        event is Stored ==> (jwk_step(kid, event) is Found || jwk_step(kid, event) is FetchRemote),
        event is Fetched ==> (jwk_step(kid, event) is StoreAndReturn || jwk_step(kid, event) is NoSuchKey),
{
}

/// A key set fetched from the user pool that holds a key with the id asked for always
/// ends the lookup with that key; only a set without it ends in failure.
pub proof fn lemma_fetched_set_with_kid_serves(kid: Seq<char>, keys: Seq<JwkView>)
    ensures
        (exists|i: int| 0 <= i < keys.len() && (#[trigger] keys[i]).kid == kid)
            <==> jwk_step(kid, JwkEventView::Fetched(keys)) is StoreAndReturn,
{
    lemma_key_with_kid(keys, kid);
}

/// Once the key set that served a lookup has been put in the cache, a second lookup of
/// the same key id is answered by the cache, with the same key and key set.
pub proof fn lemma_cache_serves_again(
    kid: Seq<char>,
    event: JwkEventView,
    cache: Option<Seq<JwkView>>,
)
    ensures
        jwk_step(kid, event) matches JwkActionView::Found(k, ks) ==> jwk_step(
            kid,
            JwkEventView::Cached(refreshed(cache, ks)),
        ) == JwkActionView::Found(k, ks),
        jwk_step(kid, event) matches JwkActionView::StoreAndReturn(k, ks) ==> jwk_step(
            kid,
            JwkEventView::Cached(refreshed(cache, ks)),
        ) == JwkActionView::Found(k, ks),
{
}

/// A refresh leaves the cache holding the key set it was given, so a second refresh
/// with the same key set writes nothing.
pub proof fn lemma_refresh_idempotent(cache: Option<Seq<JwkView>>, current: Seq<JwkView>)
    ensures
        refreshed(cache, current) == Some(current),
        !refresh_writes(refreshed(cache, current), current),
        refreshed(refreshed(cache, current), current) == refreshed(cache, current),
{
}

/// The key set a source gave, if it gave one.
pub open spec fn event_keys(event: JwkEventView) -> Option<Seq<JwkView>> {
    match event {
        JwkEventView::Cached(c) => c,
        JwkEventView::Stored(s) => s,
        JwkEventView::Fetched(f) => Some(f),
    }
}

/// A lookup hands out the key set it found the key in, whole: the set that the cache,
/// the bucket or the user pool gave, with every one of its keys; and the key it hands
/// out is the first key of that set with the id asked for.
pub proof fn lemma_served_set_is_the_source_set(kid: Seq<char>, event: JwkEventView)
    ensures
        served_key(jwk_step(kid, event)) matches Some((k, ks)) ==> {
            &&& event_keys(event) == Some(ks)
            &&& exists|i: int|
                0 <= i < ks.len() && ks[i] == k && k.kid == kid && forall|j: int|
                    0 <= j < i ==> (#[trigger] ks[j]).kid != kid
        },
        jwk_step(kid, event) matches JwkActionView::StoreAndReturn(_, ks) ==> event
            == JwkEventView::Fetched(ks),
{
    if let Some(ks) = event_keys(event) {
        lemma_first_key_with_kid(ks, kid);
    }
}

/// The key found for an id is the first key of the set with that id.
pub proof fn lemma_first_key_with_kid(keys: Seq<JwkView>, kid: Seq<char>)
    ensures
        key_with_kid(keys, kid) matches Some(k) ==> exists|i: int|
            0 <= i < keys.len() && keys[i] == k && k.kid == kid && forall|j: int|
                0 <= j < i ==> (#[trigger] keys[j]).kid != kid,
    decreases keys.len(),
{
    if keys.len() > 0 && keys[0].kid != kid {
        let rest = keys.drop_first();
        lemma_first_key_with_kid(rest, kid);
        if let Some(k) = key_with_kid(rest, kid) {
            let i = choose|i: int|
                0 <= i < rest.len() && rest[i] == k && k.kid == kid && forall|j: int|
                    0 <= j < i ==> (#[trigger] rest[j]).kid != kid;
            assert(keys[i + 1] == k);
            assert forall|j: int| 0 <= j < i + 1 implies (#[trigger] keys[j]).kid != kid by {
                if j > 0 {
                    assert(keys[j] == rest[j - 1]);
                }
            }
        }
    }
}

} // verus!
