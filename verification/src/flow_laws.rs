//! What holds of the two flows when they run against a store that answers
//! every operation and is changed by nobody else.

use vstd::prelude::*;
use crate::codec_laws::lemma_round_trip;
use crate::fetch::{first_step, resolution, FetchStepView};
use crate::http::{Method, ResponseView, NOT_FOUND, OK};
use crate::key_generator::{hash_of, KeyGenerator};
use crate::policy::credential_of;
use crate::shorten::{
    KeySource, PendingLookupView, PendingPutView, ShortenRequestView, ShortenStepView, Stage,
};
use crate::store::{LookupView, StoreErrorKind, StoreErrorView};
use crate::value_parser::{encoding, Record};

verus! {

/// A store in which every lookup and every write succeeds: what it holds,
/// and its words for a key that it does not hold.
pub ghost struct ModelStore {
    pub entries: Map<Seq<char>, Seq<u8>>,
    pub not_found: Seq<char>,
}

/// How a write request ends: the response, and what the store then holds.
pub ghost struct Outcome {
    pub response: ResponseView,
    pub entries: Map<Seq<char>, Seq<u8>>,
}

impl ModelStore {
    /// The store's answer to a lookup of `key`.
    pub open spec fn lookup(self, key: Seq<char>) -> LookupView {
        if self.entries.dom().contains(key) {
            Ok(self.entries[key])
        } else {
            Err(StoreErrorView { kind: StoreErrorKind::NotFound, message: self.not_found })
        }
    }

    /// How the write flow ends from `step` on when it may make at most
    /// `lookups` lookups; `None` where it needs more.
    pub open spec fn finish(self, step: ShortenStepView, lookups: nat) -> Option<Outcome>
        decreases lookups,
    {
        match step {
            ShortenStepView::Respond(response) => Some(
                Outcome { response, entries: self.entries },
            ),
            ShortenStepView::Put(pending) => Some(
                Outcome {
                    response: pending.resume(Ok(())),
                    entries: self.entries.insert(pending.key, pending.value),
                },
            ),
            ShortenStepView::Lookup(pending) => if lookups == 0 {
                None
            } else {
                self.finish(pending.resume(self.lookup(pending.key)), (lookups - 1) as nat)
            },
        }
    }

    /// How a write request ends within `lookups` lookups.
    pub open spec fn shorten(self, request: ShortenRequestView, lookups: nat) -> Option<Outcome> {
        self.finish(request.first_step(), lookups)
    }

    /// The response to a read request.
    pub open spec fn fetch(self, method: Method, key: Option<Seq<char>>) -> ResponseView {
        match first_step(method, key) {
            FetchStepView::Respond(response) => response,
            FetchStepView::Lookup(k) => resolution(self.lookup(k)),
        }
    }

    /// The store after a write request that stored `record` under `key`.
    pub open spec fn with(self, key: Seq<char>, record: Record) -> ModelStore {
        ModelStore { entries: self.entries.insert(key, encoding(record)), ..self }
    }
}

impl ShortenRequestView {
    /// The record that this request asks to store.
    pub open spec fn record(self) -> Record {
        Record { url: self.url->Some_0, password: self.password }
    }
}

/// A preflight request is answered with the two CORS headers, whatever its
/// parameters and headers are and whatever the store holds, and the store is
/// left alone. This holds of both flows.
pub proof fn lemma_preflight_ignores_the_rest(
    store: ModelStore,
    request: ShortenRequestView,
    key: Option<Seq<char>>,
    lookups: nat,
)
    requires
        request.method == Method::Options,
    ensures
        store.shorten(request, lookups) == Some(
            Outcome { response: ResponseView::preflight(), entries: store.entries },
        ),
        store.fetch(Method::Options, key) == ResponseView::preflight(),
{
}

/// A request with an alias that the store does not hold stores its record
/// under the alias and answers with the alias, after one lookup.
pub proof fn lemma_unused_alias_is_written(store: ModelStore, request: ShortenRequestView)
    requires
        request.method == Method::Get,
        request.url is Some,
        request.alias is Some,
        !store.entries.dom().contains(request.alias->Some_0),
    ensures
        store.shorten(request, 1) == Some(
            Outcome {
                response: ResponseView::text(OK, request.alias->Some_0),
                entries: store.with(request.alias->Some_0, request.record()).entries,
            },
        ),
{
    reveal_with_fuel(ModelStore::finish, 2);
}

/// Of two requests for the same unused alias that both look the alias up
/// before either writes, both write and both are answered with the alias,
/// and the store ends up with the record of the one that writes last.
pub proof fn lemma_later_write_wins(
    store: ModelStore,
    first: ShortenRequestView,
    second: ShortenRequestView,
)
    requires
        first.method == Method::Get,
        second.method == Method::Get,
        first.url is Some,
        second.url is Some,
        first.alias is Some,
        second.alias == first.alias,
        !store.entries.dom().contains(first.alias->Some_0),
    ensures
        ({
            let alias = first.alias->Some_0;
            let one = first.first_step()->Lookup_0.resume(store.lookup(alias));
            let other = second.first_step()->Lookup_0.resume(store.lookup(alias));
            &&& one == ShortenStepView::Put(
                PendingPutView { key: alias, value: encoding(first.record()) },
            )
            &&& other == ShortenStepView::Put(
                PendingPutView { key: alias, value: encoding(second.record()) },
            )
            &&& one->Put_0.resume(Ok(())) == ResponseView::text(OK, alias)
            &&& other->Put_0.resume(Ok(())) == ResponseView::text(OK, alias)
            &&& store.entries.insert(alias, one->Put_0.value).insert(alias, other->Put_0.value)
                == store.with(alias, second.record()).entries
        }),
{
    let alias = first.alias->Some_0;
    assert(store.entries.insert(alias, encoding(first.record())).insert(
        alias,
        encoding(second.record()),
    ) =~= store.entries.insert(alias, encoding(second.record())));
}

/// A request with an alias under which the store holds a record without
/// password is refused, whatever passwords it brings, and the store is left
/// as it was.
pub proof fn lemma_unprotected_alias_is_kept(
    store: ModelStore,
    request: ShortenRequestView,
    stored: Record,
)
    requires
        request.method == Method::Get,
        request.url is Some,
        request.alias is Some,
        store.entries.dom().contains(request.alias->Some_0),
        store.entries[request.alias->Some_0] == encoding(stored),
        stored.wf(),
        stored.password is None,
    ensures
        store.shorten(request, 2) == Some(
            Outcome {
                response: PendingLookupView::refusal(KeySource::Alias),
                entries: store.entries,
            },
        ),
{
    reveal_with_fuel(ModelStore::finish, 3);
    lemma_round_trip(stored);
}

/// A request with an alias under which the store holds a record with a
/// password overwrites that record where its old password, or without one
/// its new password, is the stored password. Otherwise it is refused and the
/// store is left as it was.
pub proof fn lemma_protected_alias_opens_to_its_password(
    store: ModelStore,
    request: ShortenRequestView,
    stored: Record,
)
    requires
        request.method == Method::Get,
        request.url is Some,
        request.alias is Some,
        store.entries.dom().contains(request.alias->Some_0),
        store.entries[request.alias->Some_0] == encoding(stored),
        stored.wf(),
        stored.password is Some,
    ensures
        store.shorten(request, 2) == Some(
            if credential_of(request.old_password, request.password) == stored.password {
                Outcome {
                    response: ResponseView::text(OK, request.alias->Some_0),
                    entries: store.with(request.alias->Some_0, request.record()).entries,
                }
            } else {
                Outcome {
                    response: PendingLookupView::refusal(KeySource::Alias),
                    entries: store.entries,
                }
            },
        ),
{
    reveal_with_fuel(ModelStore::finish, 3);
    lemma_round_trip(stored);
}

proof fn lemma_generation_runs(
    store: ModelStore,
    pending: PendingLookupView,
    generator: KeyGenerator,
    retries: nat,
)
    requires
        pending.stage == Stage::Generating(generator),
        pending.key == generator.key(),
        generator.generated(store.entries.dom(), retries) is Some,
    ensures
        store.finish(ShortenStepView::Lookup(pending), retries + 2) == Some(
            Outcome {
                response: ResponseView::text(
                    OK,
                    generator.generated(store.entries.dom(), retries)->Some_0,
                ),
                entries: store.entries.insert(
                    generator.generated(store.entries.dom(), retries)->Some_0,
                    encoding(Record { url: pending.url, password: pending.password }),
                ),
            },
        ),
    decreases retries,
{
    reveal_with_fuel(ModelStore::finish, 3);
    if store.entries.dom().contains(generator.key()) {
        let next = PendingLookupView {
            key: generator.rejected().key(),
            stage: Stage::Generating(generator.rejected()),
            ..pending
        };
        lemma_generation_runs(store, next, generator.rejected(), (retries - 1) as nat);
    }
}

/// A request without alias stores its record under the generated key and
/// answers with that key: the key that generation for the URL's hash ends
/// with against the keys that the store holds.
pub proof fn lemma_generated_key_is_written(
    store: ModelStore,
    request: ShortenRequestView,
    retries: nat,
)
    requires
        request.method == Method::Get,
        request.url is Some,
        request.alias is None,
        KeyGenerator::start(hash_of(request.url->Some_0)).generated(
            store.entries.dom(),
            retries,
        ) is Some,
    ensures
        ({
            let key = KeyGenerator::start(hash_of(request.url->Some_0)).generated(
                store.entries.dom(),
                retries,
            )->Some_0;
            store.shorten(request, retries + 2) == Some(
                Outcome {
                    response: ResponseView::text(OK, key),
                    entries: store.with(key, request.record()).entries,
                },
            )
        }),
{
    let generator = KeyGenerator::start(hash_of(request.url->Some_0));
    let pending = request.first_step()->Lookup_0;
    lemma_generation_runs(store, pending, generator, retries);
}

/// A key under which a well-formed record was stored is fetched as a
/// redirect to the record's URL.
pub proof fn lemma_stored_url_is_fetched(store: ModelStore, key: Seq<char>, record: Record)
    requires
        record.wf(),
    ensures
        store.with(key, record).fetch(Method::Get, Some(key)) == ResponseView::redirect(
            record.url,
        ),
{
    lemma_round_trip(record);
}

/// A key that the store does not hold is fetched as not found, in the
/// store's words.
pub proof fn lemma_unknown_key_is_not_found(store: ModelStore, key: Seq<char>)
    requires
        !store.entries.dom().contains(key),
    ensures
        store.fetch(Method::Get, Some(key)) == ResponseView::text(NOT_FOUND, store.not_found),
{
}

} // verus!
