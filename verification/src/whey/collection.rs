//! The mocked traits of a context, each with the identifier of the field
//! that holds its core.
use vstd::prelude::*;
use super::attributes::WheyMockedTrait;
use super::names::MockedTraitDefinition;

verus! {

/// `rand::thread_rng` and `rand::Rng::gen`: four bytes from the thread's
/// random generator. Nothing is stated of them.
#[verifier::external_body]
fn random_bytes() -> (r: [u8; 4]) {
    rand::Rng::gen::<[u8; 4]>(&mut rand::thread_rng())
}

/// The digit of a number below sixteen, in upper case.
pub open spec fn hex_digit(n: u8) -> char {
    if n == 0 {
        '0'
    } else if n == 1 {
        '1'
    } else if n == 2 {
        '2'
    } else if n == 3 {
        '3'
    } else if n == 4 {
        '4'
    } else if n == 5 {
        '5'
    } else if n == 6 {
        '6'
    } else if n == 7 {
        '7'
    } else if n == 8 {
        '8'
    } else if n == 9 {
        '9'
    } else if n == 10 {
        'A'
    } else if n == 11 {
        'B'
    } else if n == 12 {
        'C'
    } else if n == 13 {
        'D'
    } else if n == 14 {
        'E'
    } else {
        'F'
    }
}

/// A byte in hexadecimal, upper case, without leading zeros.
pub open spec fn hex_text(byte: u8) -> Seq<char> {
    if byte < 16 {
        seq![hex_digit(byte)]
    } else {
        seq![hex_digit(byte / 16), hex_digit(byte % 16)]
    }
}

/// The identifier made of four bytes: `whey_mock_core_` and the bytes in
/// hexadecimal.
pub open spec fn identifier_text(bytes: [u8; 4]) -> Seq<char> {
    "whey_mock_core_"@ + hex_text(bytes[0]) + hex_text(bytes[1]) + hex_text(bytes[2]) + hex_text(
        bytes[3],
    )
}

fn hex_str(n: u8) -> (r: &'static str)
    requires
        n < 16,
    ensures
        r@ == seq![hex_digit(n)],
{
    proof {
        reveal_strlit("0");
        reveal_strlit("1");
        reveal_strlit("2");
        reveal_strlit("3");
        reveal_strlit("4");
        reveal_strlit("5");
        reveal_strlit("6");
        reveal_strlit("7");
        reveal_strlit("8");
        reveal_strlit("9");
        reveal_strlit("A");
        reveal_strlit("B");
        reveal_strlit("C");
        reveal_strlit("D");
        reveal_strlit("E");
        reveal_strlit("F");
    }
    if n == 0 {
        "0"
    } else if n == 1 {
        "1"
    } else if n == 2 {
        "2"
    } else if n == 3 {
        "3"
    } else if n == 4 {
        "4"
    } else if n == 5 {
        "5"
    } else if n == 6 {
        "6"
    } else if n == 7 {
        "7"
    } else if n == 8 {
        "8"
    } else if n == 9 {
        "9"
    } else if n == 10 {
        "A"
    } else if n == 11 {
        "B"
    } else if n == 12 {
        "C"
    } else if n == 13 {
        "D"
    } else if n == 14 {
        "E"
    } else {
        "F"
    }
}

fn push_hex(text: &mut String, byte: u8)
    ensures
        final(text)@ == old(text)@ + hex_text(byte),
{
    if byte >= 16 {
        text.append(hex_str(byte / 16));
    }
    text.append(hex_str(byte % 16));
    assert(text@ =~= old(text)@ + hex_text(byte));
}

/// A mocked trait of a collection and the identifier of its core's field.
pub struct MockedCollectionItem {
    pub identifier: String,
    pub item: WheyMockedTrait,
}

/// The definition of a mocked trait, however long its mock lives.
pub open spec fn definition_of(mocked: WheyMockedTrait) -> MockedTraitDefinition {
    match mocked {
        WheyMockedTrait::Transient(definition) => definition,
        WheyMockedTrait::Singleton(definition) => definition,
    }
}

/// The path of the trait that an item mocks, written out.
pub open spec fn item_path(item: MockedCollectionItem) -> Seq<char> {
    definition_of(item.item).mocked_trait.spec_text()
}

/// The mocked traits of a context: one item for each trait, each with an
/// identifier that no other item was given.
pub struct MockedCollection {
    consumed: Vec<String>,
    mocked_traits: Vec<MockedCollectionItem>,
}

impl MockedCollection {
    /// The identifiers given out.
    pub closed spec fn spec_consumed(&self) -> Seq<Seq<char>> {
        self.consumed@.map_values(|s: String| s@)
    }

    /// The items, in the order in which they were added.
    pub closed spec fn spec_items(&self) -> Seq<MockedCollectionItem> {
        self.mocked_traits@
    }

    /// No trait twice, no identifier twice, and every item's identifier
    /// given out.
    pub open spec fn wf(&self) -> bool {
        &&& forall|i: int, j: int|
            0 <= i < j < self.spec_items().len() ==> item_path(#[trigger] self.spec_items()[i])
                != item_path(#[trigger] self.spec_items()[j])
        &&& forall|i: int, j: int|
            0 <= i < j < self.spec_items().len() ==> (#[trigger] self.spec_items()[i]).identifier@
                != (#[trigger] self.spec_items()[j]).identifier@
        &&& forall|i: int|
            0 <= i < self.spec_items().len() ==> self.spec_consumed().contains(
                (#[trigger] self.spec_items()[i]).identifier@,
            )
    }

    /// An empty collection.
    pub fn new() -> (r: Self)
        ensures
            r.wf(),
            r.spec_consumed().len() == 0,
            r.spec_items().len() == 0,
    {
        let r = Self { consumed: Vec::new(), mocked_traits: Vec::new() };
        assert(r.spec_consumed() =~= seq![]);
        r
    }

    /// The identifier made of four bytes.
    pub fn identifier_from_bytes(bytes: [u8; 4]) -> (r: String)
        ensures
            r@ == identifier_text(bytes),
    {
        let mut r = String::from_str("whey_mock_core_");
        push_hex(&mut r, bytes[0]);
        push_hex(&mut r, bytes[1]);
        push_hex(&mut r, bytes[2]);
        push_hex(&mut r, bytes[3]);
        r
    }

    /// An identifier made of four random bytes.
    pub fn generate_identifier() -> (r: String)
        ensures
            exists|bytes: [u8; 4]| r@ == identifier_text(bytes),
    {
        let bytes = random_bytes();
        Self::identifier_from_bytes(bytes)
    }

    /// Whether `identifier` was given out.
    pub fn is_consumed(&self, identifier: &String) -> (r: bool)
        ensures
            r == self.spec_consumed().contains(identifier@),
    {
        let n = self.consumed.len();
        let mut i: usize = 0;
        while i < n
            invariant
                n == self.consumed@.len(),
                i <= n,
                forall|j: int| 0 <= j < i ==> self.consumed@[j]@ != identifier@,
            decreases n - i,
        {
            if self.consumed[i].eq(identifier) {
                assert(self.spec_consumed()[i as int] == identifier@);
                return true;
            }
            i = i + 1;
        }
        assert forall|j: int| 0 <= j < self.spec_consumed().len() implies self.spec_consumed()[j]
            != identifier@ by {
            assert(self.spec_consumed()[j] == self.consumed@[j]@);
        }
        false
    }

    /// Whether the collection holds an item for the trait at `path`.
    pub fn contains(&self, path: &String) -> (r: bool)
        ensures
            r == exists|i: int|
                0 <= i < self.spec_items().len() && item_path(#[trigger] self.spec_items()[i])
                    == path@,
    {
        let n = self.mocked_traits.len();
        let mut i: usize = 0;
        while i < n
            invariant
                n == self.mocked_traits@.len(),
                i <= n,
                forall|j: int| 0 <= j < i ==> item_path(#[trigger] self.spec_items()[j]) != path@,
            decreases n - i,
        {
            let definition = match &self.mocked_traits[i].item {
                WheyMockedTrait::Transient(definition) => definition,
                WheyMockedTrait::Singleton(definition) => definition,
            };
            let text = definition.mocked_trait.text();
            if text.eq(path) {
                assert(item_path(self.spec_items()[i as int]) == path@);
                return true;
            }
            i = i + 1;
        }
        false
    }

    /// Adds a mocked trait with the identifier `identifier`, unless the
    /// collection already holds one for the same trait. Where the identifier
    /// was given out before, nothing is added and the trait is handed back,
    /// so that the caller can draw another identifier.
    pub fn add(&mut self, mocked_trait: WheyMockedTrait, identifier: String) -> (rejected: Option<
        WheyMockedTrait,
    >)
        requires
            old(self).wf(),
        ensures
            final(self).wf(),
            (exists|i: int|
                0 <= i < old(self).spec_items().len() && item_path(
                    #[trigger] old(self).spec_items()[i],
                ) == definition_of(mocked_trait).mocked_trait.spec_text()) ==> *final(self)
                == *old(self) && rejected is None,
            !(exists|i: int|
                0 <= i < old(self).spec_items().len() && item_path(
                    #[trigger] old(self).spec_items()[i],
                ) == definition_of(mocked_trait).mocked_trait.spec_text()) ==> if old(
                self,
            ).spec_consumed().contains(identifier@) {
                &&& *final(self) == *old(self)
                &&& rejected == Some(mocked_trait)
            } else {
                &&& final(self).spec_consumed() == old(self).spec_consumed().push(identifier@)
                &&& final(self).spec_items() == old(self).spec_items().push(
                    MockedCollectionItem { identifier, item: mocked_trait },
                )
                &&& rejected is None
            },
    {
        let path = match &mocked_trait {
            WheyMockedTrait::Transient(definition) => definition.mocked_trait.text(),
            WheyMockedTrait::Singleton(definition) => definition.mocked_trait.text(),
        };
        if self.contains(&path) {
            return None;
        }
        if self.is_consumed(&identifier) {
            return Some(mocked_trait);
        }
        {
            let ghost old_consumed = self.spec_consumed();
            let ghost old_items = self.spec_items();
            self.consumed.push(identifier.clone());
            self.mocked_traits.push(MockedCollectionItem { identifier, item: mocked_trait });
            assert(self.spec_consumed() =~= old_consumed.push(identifier@));
            assert forall|i: int| 0 <= i < self.spec_items().len() implies self.spec_consumed().contains(
                (#[trigger] self.spec_items()[i]).identifier@,
            ) by {
                if i < old_items.len() {
                    assert(self.spec_items()[i] == old_items[i]);
                    let k = choose|k: int| 0 <= k < old_consumed.len() && old_consumed[k] == old_items[i].identifier@;
                    assert(self.spec_consumed()[k] == old_consumed[k]);
                } else {
                    assert(self.spec_consumed()[old_consumed.len() as int] == identifier@);
                }
            }
        }
        None
    }
}

} // verus!
