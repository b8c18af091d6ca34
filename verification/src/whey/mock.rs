//! A mocked trait and the testing struct generated for it.
use vstd::prelude::*;
use super::fields::{
    WheyMethod, fields_text, initializers_text, quote_field_initializers, quote_fields,
};
use super::impls::{
    assert_expectations_text, impl_text, quote_assert_expectations, quote_impl,
    quote_reset_expectations, quote_setup_expectations, reset_expectations_text,
    setup_expectations_text,
};
use super::model::{join_texts, joined, string_texts};
use super::names::testing_struct_name;

verus! {

/// A generic parameter of a trait.
pub enum WheyGenericParam {
    /// A lifetime, named without its apostrophe.
    Lifetime(String),
    /// A type or a constant parameter, written out.
    Other(String),
}

/// An item of a trait.
pub enum WheyTraitItem {
    Method(WheyMethod),
    /// Any other item, written out.
    Other(String),
}

/// A trait as the mock generator reads it.
pub struct WheyTrait {
    /// The trait written out, as the generated code repeats it.
    pub text: String,
    /// The visibility written out, such as `pub`, or nothing.
    pub vis: String,
    pub ident: String,
    pub generic_params: Vec<WheyGenericParam>,
    /// The generics written out, such as `<'a, T: Clone>`, or nothing.
    pub generics: String,
    /// The generics as an impl declares them.
    pub impl_generics: String,
    /// The generics as an impl applies them to its type.
    pub type_generics: String,
    /// The where clause written out, or nothing.
    pub where_clause: String,
    pub items: Vec<WheyTraitItem>,
}

/// The lifetimes among generic parameters, in their order.
pub open spec fn lifetimes_of(params: Seq<WheyGenericParam>) -> Seq<String>
    decreases params.len(),
{
    if params.len() == 0 {
        seq![]
    } else {
        match params.last() {
            WheyGenericParam::Lifetime(name) => lifetimes_of(params.drop_last()).push(name),
            WheyGenericParam::Other(_) => lifetimes_of(params.drop_last()),
        }
    }
}

/// The methods among the items of a trait, in their order.
pub open spec fn methods_of(items: Seq<WheyTraitItem>) -> Seq<WheyMethod>
    decreases items.len(),
{
    if items.len() == 0 {
        seq![]
    } else {
        match items.last() {
            WheyTraitItem::Method(method) => methods_of(items.drop_last()).push(method),
            WheyTraitItem::Other(_) => methods_of(items.drop_last()),
        }
    }
}

/// The fields of the testing struct for all methods.
pub open spec fn mock_fields(methods: Seq<WheyMethod>, lifetimes: Seq<String>) -> Seq<Seq<char>>
    decreases methods.len(),
{
    if methods.len() == 0 {
        seq![]
    } else {
        mock_fields(methods.drop_last(), lifetimes) + fields_text(methods.last(), lifetimes)
    }
}

/// The initializers of the fields for all methods.
pub open spec fn mock_initializers(methods: Seq<WheyMethod>) -> Seq<Seq<char>>
    decreases methods.len(),
{
    if methods.len() == 0 {
        seq![]
    } else {
        mock_initializers(methods.drop_last()) + initializers_text(methods.last())
    }
}

/// The setup methods for all methods.
pub open spec fn mock_setups(methods: Seq<WheyMethod>, lifetimes: Seq<String>) -> Seq<Seq<char>>
    decreases methods.len(),
{
    if methods.len() == 0 {
        seq![]
    } else {
        mock_setups(methods.drop_last(), lifetimes) + setup_expectations_text(
            methods.last(),
            lifetimes,
        )
    }
}

/// The checks of `assert` for all methods.
pub open spec fn mock_asserts(methods: Seq<WheyMethod>, testing: Seq<char>) -> Seq<Seq<char>>
    decreases methods.len(),
{
    if methods.len() == 0 {
        seq![]
    } else {
        mock_asserts(methods.drop_last(), testing).push(
            assert_expectations_text(testing, methods.last()),
        )
    }
}

/// The statements of `reset` for all methods.
pub open spec fn mock_resets(methods: Seq<WheyMethod>) -> Seq<Seq<char>>
    decreases methods.len(),
{
    if methods.len() == 0 {
        seq![]
    } else {
        mock_resets(methods.drop_last()).push(reset_expectations_text(methods.last()))
    }
}

/// The mocked methods for all methods.
pub open spec fn mock_impls(methods: Seq<WheyMethod>, testing: Seq<char>) -> Seq<Seq<char>>
    decreases methods.len(),
{
    if methods.len() == 0 {
        seq![]
    } else {
        mock_impls(methods.drop_last(), testing).push(impl_text(testing, methods.last()))
    }
}

/// The name of the testing struct of a trait.
pub open spec fn testing_name(mocked_trait: WheyTrait) -> Seq<char> {
    "Testing"@ + mocked_trait.ident@
}

/// The declaration of the testing struct.
pub open spec fn struct_decl_text(mocked_trait: WheyTrait) -> Seq<char> {
    let methods = methods_of(mocked_trait.items@);
    let lifetimes = lifetimes_of(mocked_trait.generic_params@);
    mocked_trait.vis@ + " struct "@ + testing_name(mocked_trait) + " "@ + mocked_trait.generics@
        + " { "@ + joined(mock_fields(methods, lifetimes), ", "@) + " }"@
}

/// The impl of the testing struct: `new`, the setup methods, `assert`,
/// which checks every method and then resets, and `reset`.
pub open spec fn inherent_impl_text(mocked_trait: WheyTrait) -> Seq<char> {
    let testing = testing_name(mocked_trait);
    let methods = methods_of(mocked_trait.items@);
    let lifetimes = lifetimes_of(mocked_trait.generic_params@);
    " impl "@ + mocked_trait.impl_generics@ + " "@ + testing + " "@ + mocked_trait.type_generics@
        + " "@ + mocked_trait.where_clause@ + " { pub fn new() -> Self { Self { "@ + joined(
        mock_initializers(methods),
        ", "@,
    ) + " } } "@ + joined(mock_setups(methods, lifetimes), " "@) + " pub fn assert(&self) { "@
        + joined(mock_asserts(methods, testing), ""@)
        + "self.reset(); } pub fn reset(&self) { "@ + joined(mock_resets(methods), ""@)
        + "} }"@
}

/// The `Drop` of the testing struct: it asserts, unless the thread panics.
pub open spec fn drop_impl_text(mocked_trait: WheyTrait) -> Seq<char> {
    " impl "@ + mocked_trait.impl_generics@ + " Drop for "@ + testing_name(mocked_trait) + " "@
        + mocked_trait.type_generics@ + " "@ + mocked_trait.where_clause@
        + " { fn drop(&mut self) { if !std::thread::panicking() { self.assert(); } } }"@
}

/// The implementation of the trait by the testing struct.
pub open spec fn trait_impl_text(mocked_trait: WheyTrait) -> Seq<char> {
    let testing = testing_name(mocked_trait);
    " impl "@ + mocked_trait.impl_generics@ + " "@ + mocked_trait.ident@ + " "@
        + mocked_trait.generics@ + " for "@ + testing + " "@ + mocked_trait.type_generics@ + " "@
        + mocked_trait.where_clause@ + " { "@ + joined(
        mock_impls(methods_of(mocked_trait.items@), testing),
        " "@,
    ) + " }"@
}

/// The testing struct, its methods, the check on drop and the trait's
/// implementation, written out.
pub open spec fn testing_mock_text(mocked_trait: WheyTrait) -> Seq<char> {
    struct_decl_text(mocked_trait) + inherent_impl_text(mocked_trait) + drop_impl_text(
        mocked_trait,
    ) + trait_impl_text(mocked_trait)
}

/// A trait to mock.
pub struct WheyMock {
    pub mocked_trait: WheyTrait,
}

/// The parts of the testing struct gathered over the methods of a trait.
struct MockParts {
    fields: Vec<String>,
    initializers: Vec<String>,
    setups: Vec<String>,
    asserts: Vec<String>,
    resets: Vec<String>,
    impls: Vec<String>,
}

impl WheyMock {
    /// The method of a trait item, where it is one.
    pub fn filter_items(item: &WheyTraitItem) -> (r: Option<&WheyMethod>)
        ensures
            r == match item {
                WheyTraitItem::Method(method) => Some(method),
                WheyTraitItem::Other(_) => None::<&WheyMethod>,
            },
    {
        match item {
            WheyTraitItem::Method(method) => Some(method),
            WheyTraitItem::Other(_) => None,
        }
    }

    /// The lifetimes that a trait declares, in their order.
    pub fn trait_lifetimes(item: &WheyTrait) -> (r: Vec<String>)
        ensures
            r@ == lifetimes_of(item.generic_params@),
    {
        let mut lifetimes: Vec<String> = Vec::new();
        let n = item.generic_params.len();
        let mut i: usize = 0;
        while i < n
            invariant
                n == item.generic_params@.len(),
                i <= n,
                lifetimes@ == lifetimes_of(item.generic_params@.take(i as int)),
            decreases n - i,
        {
            let ghost after = item.generic_params@.take(i + 1);
            assert(after.drop_last() =~= item.generic_params@.take(i as int));
            assert(after.last() == item.generic_params@[i as int]);
            match &item.generic_params[i] {
                WheyGenericParam::Lifetime(name) => lifetimes.push(name.clone()),
                WheyGenericParam::Other(_) => {},
            }
            i = i + 1;
        }
        assert(item.generic_params@.take(n as int) =~= item.generic_params@);
        lifetimes
    }

    fn gather_parts(mocked_trait: &WheyTrait, testing: &str, lifetimes: &Vec<String>) -> (r:
        MockParts)
        requires
            testing@ == testing_name(*mocked_trait),
            lifetimes@ == lifetimes_of(mocked_trait.generic_params@),
        ensures
            ({
                let methods = methods_of(mocked_trait.items@);
                &&& string_texts(r.fields@) == mock_fields(methods, lifetimes@)
                &&& string_texts(r.initializers@) == mock_initializers(methods)
                &&& string_texts(r.setups@) == mock_setups(methods, lifetimes@)
                &&& string_texts(r.asserts@) == mock_asserts(methods, testing@)
                &&& string_texts(r.resets@) == mock_resets(methods)
                &&& string_texts(r.impls@) == mock_impls(methods, testing@)
            }),
    {
        let ghost items = mocked_trait.items@;
        let mut parts = MockParts {
            fields: Vec::new(),
            initializers: Vec::new(),
            setups: Vec::new(),
            asserts: Vec::new(),
            resets: Vec::new(),
            impls: Vec::new(),
        };
        let n = mocked_trait.items.len();
        let mut i: usize = 0;
        while i < n
            invariant
                items == mocked_trait.items@,
                n == items.len(),
                i <= n,
                ({
                    let methods = methods_of(items.take(i as int));
                    &&& string_texts(parts.fields@) == mock_fields(methods, lifetimes@)
                    &&& string_texts(parts.initializers@) == mock_initializers(methods)
                    &&& string_texts(parts.setups@) == mock_setups(methods, lifetimes@)
                    &&& string_texts(parts.asserts@) == mock_asserts(methods, testing@)
                    &&& string_texts(parts.resets@) == mock_resets(methods)
                    &&& string_texts(parts.impls@) == mock_impls(methods, testing@)
                }),
            decreases n - i,
        {
            let ghost before = methods_of(items.take(i as int));
            let ghost after = items.take(i + 1);
            assert(after.drop_last() =~= items.take(i as int));
            assert(after.last() == items[i as int]);
            match Self::filter_items(&mocked_trait.items[i]) {
                Some(method) => {
                    let ghost methods = before.push(*method);
                    assert(methods.drop_last() =~= before);
                    assert(methods.last() == *method);
                    let ghost old_parts = parts;
                    let mut fields = quote_fields(method, lifetimes);
                    let ghost new_fields = fields@;
                    parts.fields.append(&mut fields);
                    assert(string_texts(parts.fields@) =~= string_texts(old_parts.fields@)
                        + string_texts(new_fields));
                    let mut initializers = quote_field_initializers(method);
                    let ghost new_initializers = initializers@;
                    parts.initializers.append(&mut initializers);
                    assert(string_texts(parts.initializers@) =~= string_texts(
                        old_parts.initializers@,
                    ) + string_texts(new_initializers));
                    let mut setups = quote_setup_expectations(method, lifetimes);
                    let ghost new_setups = setups@;
                    parts.setups.append(&mut setups);
                    assert(string_texts(parts.setups@) =~= string_texts(old_parts.setups@)
                        + string_texts(new_setups));
                    let assert_text = quote_assert_expectations(testing, method);
                    parts.asserts.push(assert_text);
                    assert(string_texts(parts.asserts@) =~= string_texts(old_parts.asserts@).push(
                        assert_text@,
                    ));
                    let reset_text = quote_reset_expectations(method);
                    parts.resets.push(reset_text);
                    assert(string_texts(parts.resets@) =~= string_texts(old_parts.resets@).push(
                        reset_text@,
                    ));
                    let impl_string = quote_impl(testing, method);
                    parts.impls.push(impl_string);
                    assert(string_texts(parts.impls@) =~= string_texts(old_parts.impls@).push(
                        impl_string@,
                    ));
                },
                None => {},
            }
            i = i + 1;
        }
        assert(items.take(n as int) =~= items);
        parts
    }

    /// The testing struct for `mocked_trait`: a struct with the fields of all
    /// methods, its constructor, the setup methods, `assert` and `reset`, a
    /// `Drop` that asserts unless the thread panics, and the implementation
    /// of the trait by the mocked methods.
    pub fn quote_testing_mock(&self, mocked_trait: &WheyTrait) -> (r: String)
        ensures
            r@ == testing_mock_text(*mocked_trait),
    {
        let testing = testing_struct_name(mocked_trait.ident.as_str());
        let lifetimes = Self::trait_lifetimes(mocked_trait);
        let parts = Self::gather_parts(mocked_trait, testing.as_str(), &lifetimes);
        let mut r = Self::quote_struct_decl(mocked_trait, testing.as_str(), &parts.fields);
        r.append(
            Self::quote_inherent_impl(
                mocked_trait,
                testing.as_str(),
                &parts.initializers,
                &parts.setups,
                &parts.asserts,
                &parts.resets,
            ).as_str(),
        );
        r.append(Self::quote_drop_impl(mocked_trait, testing.as_str()).as_str());
        r.append(Self::quote_trait_impl(mocked_trait, testing.as_str(), &parts.impls).as_str());
        r
    }

    fn quote_struct_decl(mocked_trait: &WheyTrait, testing: &str, fields: &Vec<String>) -> (r:
        String)
        requires
            testing@ == testing_name(*mocked_trait),
            string_texts(fields@) == mock_fields(
                methods_of(mocked_trait.items@),
                lifetimes_of(mocked_trait.generic_params@),
            ),
        ensures
            r@ == struct_decl_text(*mocked_trait),
    {
        let mut r = mocked_trait.vis.clone();
        r.append(" struct ");
        r.append(testing);
        r.append(" ");
        r.append(mocked_trait.generics.as_str());
        r.append(" { ");
        r.append(join_texts(fields, ", ").as_str());
        r.append(" }");
        r
    }

    fn quote_inherent_impl(
        mocked_trait: &WheyTrait,
        testing: &str,
        initializers: &Vec<String>,
        setups: &Vec<String>,
        asserts: &Vec<String>,
        resets: &Vec<String>,
    ) -> (r: String)
        requires
            testing@ == testing_name(*mocked_trait),
            string_texts(initializers@) == mock_initializers(methods_of(mocked_trait.items@)),
            string_texts(setups@) == mock_setups(
                methods_of(mocked_trait.items@),
                lifetimes_of(mocked_trait.generic_params@),
            ),
            string_texts(asserts@) == mock_asserts(methods_of(mocked_trait.items@), testing@),
            string_texts(resets@) == mock_resets(methods_of(mocked_trait.items@)),
        ensures
            r@ == inherent_impl_text(*mocked_trait),
    {
        let mut r = String::from_str(" impl ");
        r.append(mocked_trait.impl_generics.as_str());
        r.append(" ");
        r.append(testing);
        r.append(" ");
        r.append(mocked_trait.type_generics.as_str());
        r.append(" ");
        r.append(mocked_trait.where_clause.as_str());
        r.append(" { pub fn new() -> Self { Self { ");
        r.append(join_texts(initializers, ", ").as_str());
        r.append(" } } ");
        r.append(join_texts(setups, " ").as_str());
        r.append(" pub fn assert(&self) { ");
        r.append(join_texts(asserts, "").as_str());
        r.append("self.reset(); } pub fn reset(&self) { ");
        r.append(join_texts(resets, "").as_str());
        r.append("} }");
        r
    }

    fn quote_drop_impl(mocked_trait: &WheyTrait, testing: &str) -> (r: String)
        requires
            testing@ == testing_name(*mocked_trait),
        ensures
            r@ == drop_impl_text(*mocked_trait),
    {
        let mut r = String::from_str(" impl ");
        r.append(mocked_trait.impl_generics.as_str());
        r.append(" Drop for ");
        r.append(testing);
        r.append(" ");
        r.append(mocked_trait.type_generics.as_str());
        r.append(" ");
        r.append(mocked_trait.where_clause.as_str());
        r.append(" { fn drop(&mut self) { if !std::thread::panicking() { self.assert(); } } }");
        r
    }

    fn quote_trait_impl(mocked_trait: &WheyTrait, testing: &str, impls: &Vec<String>) -> (r:
        String)
        requires
            testing@ == testing_name(*mocked_trait),
            string_texts(impls@) == mock_impls(methods_of(mocked_trait.items@), testing@),
        ensures
            r@ == trait_impl_text(*mocked_trait),
    {
        let mut r = String::from_str(" impl ");
        r.append(mocked_trait.impl_generics.as_str());
        r.append(" ");
        r.append(mocked_trait.ident.as_str());
        r.append(" ");
        r.append(mocked_trait.generics.as_str());
        r.append(" for ");
        r.append(testing);
        r.append(" ");
        r.append(mocked_trait.type_generics.as_str());
        r.append(" ");
        r.append(mocked_trait.where_clause.as_str());
        r.append(" { ");
        r.append(join_texts(impls, " ").as_str());
        r.append(" }");
        r
    }

    /// The trait itself, then its testing struct.
    pub fn quote(self) -> (r: String)
        ensures
            r@ == self.mocked_trait.text@ + " "@ + testing_mock_text(self.mocked_trait),
    {
        let testing_mock = self.quote_testing_mock(&self.mocked_trait);
        let mut r = self.mocked_trait.text.clone();
        r.append(" ");
        r.append(testing_mock.as_str());
        r
    }
}

/// The method that a trait item declares, if it declares one.
pub open spec fn item_method(item: WheyTraitItem) -> Option<WheyMethod> {
    match item {
        WheyTraitItem::Method(method) => Some(method),
        WheyTraitItem::Other(_) => None,
    }
}

/// The trait impl of the testing struct holds one method for each method
/// given, in their order, each written for that method.
pub proof fn lemma_mock_impls_one_per_method(methods: Seq<WheyMethod>, testing: Seq<char>)
    ensures
        mock_impls(methods, testing).len() == methods.len(),
        forall|j: int|
            0 <= j < methods.len() ==> #[trigger] mock_impls(methods, testing)[j] == impl_text(
                testing,
                methods[j],
            ),
    decreases methods.len(),
{
    if methods.len() > 0 {
        lemma_mock_impls_one_per_method(methods.drop_last(), testing);
        let before = mock_impls(methods.drop_last(), testing);
        assert forall|j: int| 0 <= j < methods.len() implies #[trigger] mock_impls(methods, testing)[j]
            == impl_text(testing, methods[j]) by {
            if j < methods.len() - 1 {
                assert(mock_impls(methods, testing)[j] == before[j]);
                assert(methods.drop_last()[j] == methods[j]);
            }
        }
    }
}

/// The testing struct covers every method of the trait: the methods it
/// mocks are the trait's method items, each once and in the trait's order
/// (as many as the trait has), and the trait impl has one method for each
/// of them, written for it.
pub proof fn law_every_trait_method_is_mocked(items: Seq<WheyTraitItem>, testing: Seq<char>)
    ensures
        methods_of(items) == items.filter_map(|item: WheyTraitItem| item_method(item)),
        methods_of(items).len() == items.filter(|item: WheyTraitItem| item is Method).len(),
        forall|i: int|
            #![trigger items[i]]
            0 <= i < items.len() ==> (items[i] matches WheyTraitItem::Method(method)
                ==> methods_of(items).contains(method)),
        forall|method: WheyMethod|
            #[trigger] methods_of(items).contains(method) ==> items.contains(
                WheyTraitItem::Method(method),
            ),
        mock_impls(methods_of(items), testing).len() == methods_of(items).len(),
        forall|j: int|
            0 <= j < methods_of(items).len() ==> #[trigger] mock_impls(methods_of(items), testing)[j]
                == impl_text(testing, methods_of(items)[j]),
    decreases items.len(),
{
    lemma_mock_impls_one_per_method(methods_of(items), testing);
    reveal(Seq::filter);
    if items.len() > 0 {
        let rest = items.drop_last();
        law_every_trait_method_is_mocked(rest, testing);
        let before = methods_of(rest);
        let after = methods_of(items);
        match items.last() {
            WheyTraitItem::Method(m) => {
                assert(after =~= rest.filter_map(|item: WheyTraitItem| item_method(item)) + seq![m]);
            },
            WheyTraitItem::Other(_) => {},
        }
        assert forall|i: int|
            #![trigger items[i]]
            0 <= i < items.len() implies (items[i] matches WheyTraitItem::Method(method)
                ==> after.contains(method)) by {
            if let WheyTraitItem::Method(method) = items[i] {
                if i < items.len() - 1 {
                    assert(rest[i] == items[i]);
                    let k = choose|k: int| 0 <= k < before.len() && before[k] == method;
                    if items.last() is Method {
                        assert(after[k] == before[k]);
                    }
                } else {
                    assert(after[after.len() - 1] == method);
                }
            }
        }
        assert forall|method: WheyMethod| #[trigger] after.contains(method) implies items.contains(
            WheyTraitItem::Method(method),
        ) by {
            let k = choose|k: int| 0 <= k < after.len() && after[k] == method;
            if k < before.len() {
                if items.last() is Method {
                    assert(after[k] == before[k]);
                } else {
                    assert(after == before);
                }
                assert(before.contains(method));
                let i = choose|i: int| 0 <= i < rest.len() && rest[i] == WheyTraitItem::Method(method);
                assert(items[i] == rest[i]);
            } else {
                assert(items[items.len() - 1] == WheyTraitItem::Method(method));
            }
        }
    }
}

} // verus!
