//! Person records: the stored record, the creation input, and the length
//! validation applied once at creation.

use vstd::prelude::*;
use crate::date::BirthDate;

verus! {

/// A stored person record.
#[derive(Debug)]
pub struct Person {
    pub id: u128,
    pub name: String,
    pub nick: String,
    pub birth_date: BirthDate,
    pub stack: Option<Vec<String>>,
}

/// A candidate record handed to creation; the identifier is generated by the
/// store.
#[derive(Debug)]
pub struct NewPerson {
    pub name: String,
    pub nick: String,
    pub birth_date: BirthDate,
    pub stack: Option<Vec<String>>,
}

/// Mathematical model of a stored record.
#[verifier::ext_equal]
pub ghost struct PersonV {
    pub id: u128,
    pub name: Seq<char>,
    pub nick: Seq<char>,
    pub birth_date: BirthDate,
    pub stack: Option<Seq<Seq<char>>>,
}

/// Mathematical model of a creation input.
#[verifier::ext_equal]
pub ghost struct NewPersonV {
    pub name: Seq<char>,
    pub nick: Seq<char>,
    pub birth_date: BirthDate,
    pub stack: Option<Seq<Seq<char>>>,
}

impl View for Person {
    type V = PersonV;

    open spec fn view(&self) -> PersonV {
        PersonV {
            id: self.id,
            name: self.name@,
            nick: self.nick@,
            birth_date: self.birth_date,
            stack: match self.stack {
                Some(v) => Some(v.deep_view()),
                None => None,
            },
        }
    }
}

impl View for NewPerson {
    type V = NewPersonV;

    open spec fn view(&self) -> NewPersonV {
        NewPersonV {
            name: self.name@,
            nick: self.nick@,
            birth_date: self.birth_date,
            stack: match self.stack {
                Some(v) => Some(v.deep_view()),
                None => None,
            },
        }
    }
}

/// Longest accepted name, in characters.
pub const MAX_NAME_LEN: usize = 100;

/// Longest accepted nickname or stack entry, in characters.
pub const MAX_NICK_LEN: usize = 32;

/// Every entry of a present stack is at most 32 characters long.
pub open spec fn stack_ok(stack: Option<Seq<Seq<char>>>) -> bool {
    match stack {
        Some(st) => forall|i: int| 0 <= i < st.len() ==> (#[trigger] st[i]).len() <= MAX_NICK_LEN,
        None => true,
    }
}

impl NewPersonV {
    /// The three length constraints checked at creation: name of at most 100
    /// characters, nickname of at most 32, and every stack entry of at most
    /// 32.
    pub open spec fn valid(self) -> bool {
        &&& self.name.len() <= MAX_NAME_LEN
        &&& self.nick.len() <= MAX_NICK_LEN
        &&& stack_ok(self.stack)
    }

    /// The record stored for this input under identifier `id`.
    pub open spec fn with_id(self, id: u128) -> PersonV {
        PersonV {
            id,
            name: self.name,
            nick: self.nick,
            birth_date: self.birth_date,
            stack: self.stack,
        }
    }
}

impl PersonV {
    /// Every stored record satisfies the creation constraints.
    pub open spec fn valid(self) -> bool {
        &&& self.name.len() <= MAX_NAME_LEN
        &&& self.nick.len() <= MAX_NICK_LEN
        &&& stack_ok(self.stack)
    }
}

proof fn lemma_stack_entry(st: Seq<Seq<char>>, i: int)
    requires
        stack_ok(Some(st)),
        0 <= i < st.len(),
    ensures
        st[i].len() <= MAX_NICK_LEN,
{
    let s: Option<Seq<Seq<char>>> = Some(st);
    assert(s is Some);
    assert(s->Some_0 == st);
}

/// Rejection of a creation input that breaks a length constraint.
#[derive(Clone, Copy, PartialEq, Eq, Structural, Debug)]
pub struct ValidationError;

/// Checks the three length constraints; true exactly on valid inputs.
pub fn validate(np: &NewPerson) -> (r: bool)
    ensures
        r == np@.valid(),
{
    if np.name.as_str().unicode_len() > MAX_NAME_LEN {
        return false;
    }
    if np.nick.as_str().unicode_len() > MAX_NICK_LEN {
        return false;
    }
    match &np.stack {
        None => true,
        Some(st) => {
            let ghost stv: Seq<Seq<char>> = st.deep_view();
            let n = st.len();
            let mut i: usize = 0;
            while i < n
                invariant
                    n == st.len(),
                    i <= n,
                    stv == st.deep_view(),
                    np@.stack == Some(stv),
                    np@.name.len() <= MAX_NAME_LEN,
                    np@.nick.len() <= MAX_NICK_LEN,
                    forall|j: int| 0 <= j < i ==> (#[trigger] stv[j]).len() <= MAX_NICK_LEN,
                decreases n - i,
            {
                if st[i].as_str().unicode_len() > MAX_NICK_LEN {
                    proof {
                        assert(stv[i as int] == st@[i as int]@);
                        if stack_ok(np@.stack) {
                            lemma_stack_entry(stv, i as int);
                        }
                        assert(!stack_ok(np@.stack));
                    }
                    return false;
                }
                proof {
                    assert(stv[i as int] == st@[i as int]@);
                }
                i += 1;
            }
            true
        },
    }
}

impl Clone for Person {
    /// A clone carries the same record.
    fn clone(&self) -> (r: Self)
        ensures
            r@ == self@,
    {
        let stack: Option<Vec<String>> = match &self.stack {
            None => None,
            Some(st) => Some(clone_strings(st)),
        };
        let r = Person {
            id: self.id,
            name: self.name.clone(),
            nick: self.nick.clone(),
            birth_date: self.birth_date,
            stack,
        };
        proof {
            assert(r@ =~~= self@);
        }
        r
    }
}

/// Copies a list of strings, keeping every entry.
fn clone_strings(v: &Vec<String>) -> (r: Vec<String>)
    ensures
        r@ == v@,
{
    let mut r: Vec<String> = Vec::new();
    let n = v.len();
    let mut i: usize = 0;
    while i < n
        invariant
            n == v.len(),
            i <= n,
            r@.len() == i,
            forall|j: int| 0 <= j < i ==> #[trigger] r@[j] == v@[j],
        decreases n - i,
    {
        r.push(v[i].clone());
        i += 1;
    }
    proof {
        assert(r@ =~= v@);
    }
    r
}

} // verus!
