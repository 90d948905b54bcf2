//! The ordered, duplicate-free collection of named examples.

use crate::outcome::Completion;
use vstd::prelude::*;

verus! {

/// A named demonstration: a zero-argument action and the name it runs under.
pub struct Example<F> {
    pub name: String,
    pub action: F,
}

/// Mathematical model of an [`Example`].
pub struct ExampleView<F> {
    pub name: Seq<char>,
    pub action: F,
}

impl<F> View for Example<F> {
    type V = ExampleView<F>;

    open spec fn view(&self) -> ExampleView<F> {
        ExampleView { name: self.name@, action: self.action }
    }
}

/// The models of `examples`, in order.
pub open spec fn views_of<F>(examples: Seq<Example<F>>) -> Seq<ExampleView<F>> {
    examples.map_values(|example: Example<F>| example@)
}

/// Registration was refused because the name is already taken.
#[derive(Debug)]
pub struct DuplicateNameError {
    pub name: String,
}

impl DuplicateNameError {
    /// The error as a sentence for the person who assembled the registry.
    pub fn message(&self) -> (text: String)
        ensures
            text@ == "duplicate example name: "@ + self.name@,
    {
        "duplicate example name: ".to_owned().concat(self.name.as_str())
    }
}

/// The names of `examples`, in order.
pub open spec fn names_of<F>(examples: Seq<ExampleView<F>>) -> Seq<Seq<char>> {
    examples.map_values(|example: ExampleView<F>| example.name)
}

/// Every action in `examples` may be called.
pub open spec fn all_callable<F: Fn() -> Completion>(examples: Seq<ExampleView<F>>) -> bool {
    forall|i: int| 0 <= i < examples.len() ==> call_requires(#[trigger] examples[i].action, ())
}

/// What a registry is at all times: no name occurs twice, and every action
/// may be called.
pub open spec fn well_formed<F: Fn() -> Completion>(examples: Seq<ExampleView<F>>) -> bool {
    &&& names_of(examples).no_duplicates()
    &&& all_callable(examples)
}

/// Whether `name` is free in `examples`, so that registering it succeeds.
pub open spec fn accepts<F>(examples: Seq<ExampleView<F>>, name: Seq<char>) -> bool {
    !names_of(examples).contains(name)
}

/// The examples after an attempt to register `action` under `name`: one more
/// at the end if the name was free, the same as before if it was taken.
pub open spec fn after_register<F>(
    examples: Seq<ExampleView<F>>,
    name: Seq<char>,
    action: F,
) -> Seq<ExampleView<F>> {
    if accepts(examples, name) {
        examples.push(ExampleView { name, action })
    } else {
        examples
    }
}

/// Examples in registration order, which is the order they run in.
pub struct Registry<F: Fn() -> Completion> {
    examples: Vec<Example<F>>,
}

impl<F: Fn() -> Completion> View for Registry<F> {
    type V = Seq<ExampleView<F>>;

    closed spec fn view(&self) -> Seq<ExampleView<F>> {
        views_of(self.examples@)
    }
}

impl<F: Fn() -> Completion> Registry<F> {
    #[verifier::type_invariant]
    closed spec fn inv(&self) -> bool {
        well_formed(views_of(self.examples@))
    }

    /// The names registered so far, in registration order.
    pub open spec fn names(&self) -> Seq<Seq<char>> {
        names_of(self@)
    }

    /// A registry with no examples.
    pub fn new() -> (registry: Registry<F>)
        ensures
            registry@ == Seq::<ExampleView<F>>::empty(),
    {
        Registry { examples: Vec::new() }
    }

    /// Whether an example is registered under `name`.
    pub fn contains(&self, name: &str) -> (found: bool)
        ensures
            found == self.names().contains(name@),
    {
        let wanted = name.to_owned();
        let mut i: usize = 0;
        while i < self.examples.len()
            invariant
                i <= self.examples.len(),
                wanted@ == name@,
                forall|j: int| 0 <= j < i ==> self.names()[j] != name@,
            decreases self.examples.len() - i,
        {
            if self.examples[i].name == wanted {
                assert(self.names()[i as int] == name@);
                return true;
            }
            i += 1;
        }
        false
    }

    /// Appends an example under `name`, unless the name is taken: then the
    /// registry stays as it was and the error names the duplicate.
    pub fn register(&mut self, name: &str, action: F) -> (result: Result<(), DuplicateNameError>)
        requires
            call_requires(action, ()),
        ensures
            result is Ok <==> accepts(old(self)@, name@),
            final(self)@ == after_register(old(self)@, name@, action),
            result matches Err(error) ==> error.name@ == name@,
    {
        if self.contains(name) {
            return Err(DuplicateNameError { name: name.to_owned() });
        }
        proof {
            use_type_invariant(&*self);
        }
        let mut examples: Vec<Example<F>> = Vec::new();
        std::mem::swap(&mut self.examples, &mut examples);
        let ghost before = examples@;
        examples.push(Example { name: name.to_owned(), action });
        proof {
            let added = ExampleView { name: name@, action };
            assert(views_of(examples@) =~= views_of(before).push(added));
            assert(names_of(views_of(examples@)) =~= names_of(views_of(before)).push(name@));
        }
        self.examples = examples;
        Ok(())
    }

    /// The registered examples, in registration order.
    pub fn all(&self) -> (examples: &[Example<F>])
        ensures
            views_of(examples@) == self@,
            well_formed(self@),
    {
        proof {
            use_type_invariant(self);
        }
        self.examples.as_slice()
    }

    /// How many examples are registered.
    pub fn len(&self) -> (n: usize)
        ensures
            n == self@.len(),
    {
        self.examples.len()
    }

    /// Whether nothing is registered yet.
    pub fn is_empty(&self) -> (empty: bool)
        ensures
            empty == (self@.len() == 0),
    {
        self.examples.len() == 0
    }
}

} // verus!
