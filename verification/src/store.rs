//! The person store: the single in-memory mapping from identifier to record,
//! seeded once at initialization, written only by creation.

use std::collections::HashMap;
use vstd::prelude::*;
use crate::date::BirthDate;
use crate::person::{
    stack_ok, validate, NewPerson, Person, PersonV, ValidationError, MAX_NICK_LEN,
};

verus! {

broadcast use vstd::std_specs::hash::group_hash_axioms;

/// Relies on `uuid::Uuid::now_v7` and `uuid::Uuid::as_u128`: a fresh
/// version-7 identifier drawn from the system clock and random bits, returned
/// as its 128-bit value. Nothing is assumed of the value that comes back.
#[verifier::external_body]
fn fresh_id() -> u128 {
    uuid::Uuid::now_v7().as_u128()
}

/// The records of a map, each replaced by its mathematical model.
spec fn person_views(m: Map<u128, Person>) -> Map<u128, PersonV> {
    m.map_values(|p: Person| p@)
}

proof fn lemma_person_views(m: Map<u128, Person>)
    ensures
        person_views(m).dom() == m.dom(),
        person_views(m).len() == m.len(),
        forall|k: u128| m.contains_key(k) ==> #[trigger] person_views(m)[k] == m[k]@,
{
    assert(person_views(m).dom() =~= m.dom());
}

proof fn lemma_person_views_insert(m: Map<u128, Person>, k: u128, p: Person)
    ensures
        person_views(m.insert(k, p)) == person_views(m).insert(k, p@),
{
    assert(person_views(m.insert(k, p)) =~= person_views(m).insert(k, p@));
}

/// The seed record stored at initialization under identifier `id`.
pub open spec fn seed_person(id: u128) -> PersonV {
    PersonV {
        id,
        name: "Lucas Duarte"@,
        nick: "Lucas_Duarte_dev"@,
        birth_date: BirthDate { year: 2000, month: 8, day: 31 },
        stack: Some(seq!["NodeJs"@]),
    }
}

/// The seed record meets the creation constraints, like every record that
/// creation stores.
pub proof fn lemma_seed_valid(id: u128)
    ensures
        seed_person(id).valid(),
{
    reveal_strlit("Lucas Duarte");
    reveal_strlit("Lucas_Duarte_dev");
    reveal_strlit("NodeJs");
    let st: Seq<Seq<char>> = seq!["NodeJs"@];
    assert forall|i: int| 0 <= i < st.len() implies (#[trigger] st[i]).len() <= MAX_NICK_LEN by {
        assert(st[i] == "NodeJs"@);
    }
    let s: Option<Seq<Seq<char>>> = Some(st);
    assert(s is Some);
    assert(s->Some_0 == st);
    assert(stack_ok(s));
    assert(seed_person(id).stack == s);
}

/// The in-memory store of person records. Identifiers are generated at
/// creation and never reused; records are never updated or deleted.
pub struct PersonStore {
    map: HashMap<u128, Person>,
}

impl View for PersonStore {
    type V = Map<u128, PersonV>;

    closed spec fn view(&self) -> Map<u128, PersonV> {
        person_views(self.map@)
    }
}

impl PersonStore {
    /// A store holding exactly the seed record, under the given identifier.
    pub fn with_seed(seed_id: u128) -> (s: Self)
        ensures
            s@ == Map::<u128, PersonV>::empty().insert(seed_id, seed_person(seed_id)),
            s@.len() == 1,
    {
        let mut map: HashMap<u128, Person> = HashMap::new();
        let stack: Vec<String> = vec![String::from_str("NodeJs")];
        let seed = Person {
            id: seed_id,
            name: String::from_str("Lucas Duarte"),
            nick: String::from_str("Lucas_Duarte_dev"),
            birth_date: BirthDate { year: 2000, month: 8, day: 31 },
            stack: Some(stack),
        };
        proof {
            assert(seed@.stack->Some_0 =~= seq!["NodeJs"@]);
            assert(seed@ =~~= seed_person(seed_id));
        }
        map.insert(seed_id, seed);
        let s = PersonStore { map };
        proof {
            lemma_person_views_insert(Map::empty(), seed_id, s.map@[seed_id]);
            assert(person_views(Map::empty()) =~= Map::<u128, PersonV>::empty());
            assert(s@.dom() =~= Set::empty().insert(seed_id));
        }
        s
    }

    /// A store holding the seed record under a freshly generated identifier,
    /// returned beside it.
    pub fn seeded() -> (r: (Self, u128))
        ensures
            r.0@ == Map::<u128, PersonV>::empty().insert(r.1, seed_person(r.1)),
            r.0@.len() == 1,
    {
        let id = fresh_id();
        (Self::with_seed(id), id)
    }

    /// Looks a record up by identifier; `None` exactly when no record is
    /// stored under it.
    pub fn get(&self, id: u128) -> (r: Option<&Person>)
        ensures
            match r {
                Some(p) => self@.contains_key(id) && p@ == self@[id],
                None => !self@.contains_key(id),
            },
    {
        let r = self.map.get(&id);
        proof {
            lemma_person_views(self.map@);
        }
        r
    }

    /// Number of stored records.
    pub fn count(&self) -> (n: usize)
        ensures
            n == self@.len(),
    {
        let n = self.map.len();
        proof {
            lemma_person_views(self.map@);
        }
        n
    }

    /// Stores a record under its identifier, overwriting any record already
    /// stored under it.
    pub fn insert(&mut self, person: Person)
        ensures
            final(self)@ == old(self)@.insert(person.id, person@),
            final(self)@.len() == old(self)@.len() + (if old(self)@.contains_key(person.id) {
                0int
            } else {
                1int
            }),
    {
        let ghost m0 = self.map@;
        let id = person.id;
        self.map.insert(id, person);
        proof {
            lemma_person_views_insert(m0, id, self.map@[id]);
            lemma_person_views(m0);
            assert(final(self)@.dom() =~= old(self)@.dom().insert(id));
        }
    }

    /// Validates the input and, when it passes, stores it under the given
    /// identifier and returns the created record. The store is untouched
    /// exactly when the input is rejected.
    pub fn create_with_id(&mut self, input: NewPerson, id: u128) -> (r: Result<
        Person,
        ValidationError,
    >)
        ensures
            r is Ok <==> input@.valid(),
            r is Err ==> final(self)@ == old(self)@,
            match r {
                Ok(p) => {
                    &&& p@ == input@.with_id(id)
                    &&& final(self)@ == old(self)@.insert(id, p@)
                    &&& final(self)@.len() == old(self)@.len() + (if old(
                        self,
                    )@.contains_key(id) {
                        0int
                    } else {
                        1int
                    })
                },
                Err(e) => e == ValidationError,
            },
    {
        if !validate(&input) {
            return Err(ValidationError);
        }
        let person = Person {
            id,
            name: input.name,
            nick: input.nick,
            birth_date: input.birth_date,
            stack: input.stack,
        };
        let stored = person.clone();
        proof {
            assert(person@ =~~= input@.with_id(id));
        }
        self.insert(stored);
        Ok(person)
    }

    /// Creates a record from the input: validates it, draws a fresh
    /// identifier, and stores the record under it. Succeeds exactly on valid
    /// inputs; a rejected input leaves the store untouched.
    pub fn create(&mut self, input: NewPerson) -> (r: Result<Person, ValidationError>)
        ensures
            r is Ok <==> input@.valid(),
            r is Err ==> final(self)@ == old(self)@,
            match r {
                Ok(p) => {
                    &&& p@ == input@.with_id(p@.id)
                    &&& final(self)@ == old(self)@.insert(p@.id, p@)
                    &&& final(self)@.contains_key(p@.id)
                    &&& final(self)@.len() == old(self)@.len() + (if old(self)@.contains_key(
                        p@.id,
                    ) {
                        0int
                    } else {
                        1int
                    })
                },
                Err(e) => e == ValidationError,
            },
    {
        let id = fresh_id();
        self.create_with_id(input, id)
    }
}

/// Fixed acknowledgment of the search route; no filtering is performed.
pub fn search_ack() -> (r: String)
    ensures
        r@ == "Busca Pessoa por ID"@,
{
    String::from_str("Busca Pessoa por ID")
}

} // verus!
