//! Repository descriptors and the index that presents them by position.

use vstd::prelude::*;

verus! {

/// One repository of an account, as the forge lists it.
#[derive(Debug, PartialEq, Eq)]
pub struct RepositoryDescriptor {
    /// The repository's name, unique among the repositories of one account.
    pub name: String,
    /// The URL from which the repository can be cloned.
    pub clone_url: String,
}

/// The mathematical value of a [`RepositoryDescriptor`].
pub struct RepositoryModel {
    pub name: Seq<char>,
    pub clone_url: Seq<char>,
}

impl View for RepositoryDescriptor {
    type V = RepositoryModel;

    open spec fn view(&self) -> RepositoryModel {
        RepositoryModel { name: self.name@, clone_url: self.clone_url@ }
    }
}

impl DeepView for RepositoryDescriptor {
    type V = RepositoryModel;

    open spec fn deep_view(&self) -> RepositoryModel {
        self@
    }
}

impl Clone for RepositoryDescriptor {
    fn clone(&self) -> (copy: RepositoryDescriptor)
        ensures
            copy@ == self@,
    {
        RepositoryDescriptor { name: self.name.clone(), clone_url: self.clone_url.clone() }
    }
}

impl RepositoryDescriptor {
    /// Makes a descriptor from a name and a clone URL.
    pub fn new(name: &str, clone_url: &str) -> (descriptor: RepositoryDescriptor)
        ensures
            descriptor@ == (RepositoryModel { name: name@, clone_url: clone_url@ }),
    {
        RepositoryDescriptor { name: name.to_owned(), clone_url: clone_url.to_owned() }
    }
}

/// The names of `repositories`, position by position.
pub open spec fn names_of(repositories: Seq<RepositoryModel>) -> Seq<Seq<char>> {
    repositories.map_values(|r: RepositoryModel| r.name)
}

/// Whether no two of `repositories` share a name.
pub open spec fn names_unique(repositories: Seq<RepositoryModel>) -> bool {
    forall|i: int, j: int|
        0 <= i < j < repositories.len() ==> (#[trigger] repositories[i]).name != (
        #[trigger] repositories[j]).name
}

/// The repository at `position`, if there is one.
pub open spec fn at_position(repositories: Seq<RepositoryModel>, position: int) -> Option<
    RepositoryModel,
> {
    if 0 <= position < repositories.len() {
        Some(repositories[position])
    } else {
        None
    }
}

/// Whether `position` is the first one whose repository is called `name`.
pub open spec fn first_named(
    repositories: Seq<RepositoryModel>,
    name: Seq<char>,
    position: int,
) -> bool {
    &&& 0 <= position < repositories.len()
    &&& repositories[position].name == name
    &&& forall|earlier: int|
        0 <= earlier < position ==> (#[trigger] repositories[earlier]).name != name
}

/// The first repository called `name`, if there is one.
pub open spec fn named(repositories: Seq<RepositoryModel>, name: Seq<char>) -> Option<
    RepositoryModel,
> {
    if exists|position: int| first_named(repositories, name, position) {
        Some(repositories[choose|position: int| first_named(repositories, name, position)])
    } else {
        None
    }
}

/// Two positions that are both the first for one name are the same position.
pub proof fn lemma_first_named_is_unique(
    repositories: Seq<RepositoryModel>,
    name: Seq<char>,
    p: int,
    q: int,
)
    requires
        first_named(repositories, name, p),
        first_named(repositories, name, q),
    ensures
        p == q,
{
}

/// Whether choosing by position and choosing by name agree at `position`:
/// the position resolves to the repository listed there, looking up the name
/// shown there finds that same repository, and no repository at another
/// position carries that name.
pub open spec fn agree_at(repositories: Seq<RepositoryModel>, position: int) -> bool {
    let shown = names_of(repositories)[position];
    &&& at_position(repositories, position) == Some(repositories[position])
    &&& named(repositories, shown) == at_position(repositories, position)
    &&& repositories[position].name == shown
    &&& forall|other: int|
        0 <= other < repositories.len() && (#[trigger] repositories[other]).name == shown
            ==> other == position
}

/// Choosing by position and choosing by name agree: where no two repositories
/// share a name, they agree at every position of a selection from the
/// listing.
pub proof fn lemma_position_and_name_agree(
    repositories: Seq<RepositoryModel>,
    selection: Seq<usize>,
)
    requires
        names_unique(repositories),
        forall|k: int| 0 <= k < selection.len() ==> selection[k] < repositories.len(),
    ensures
        forall|k: int|
            0 <= k < selection.len() ==> agree_at(repositories, #[trigger] selection[k] as int),
{
    assert forall|k: int| 0 <= k < selection.len() implies agree_at(
        repositories,
        #[trigger] selection[k] as int,
    ) by {
        let position = selection[k] as int;
        let shown = names_of(repositories)[position];
        assert(first_named(repositories, shown, position));
        lemma_first_named_is_unique(
            repositories,
            shown,
            position,
            choose|p: int| first_named(repositories, shown, p),
        );
    }
}

/// The repositories of one account in the order in which the forge listed
/// them, together with their names in that same order.
///
/// The names are what a checklist shows; a position chosen there is resolved
/// against the very sequence that the names were taken from.
#[derive(Debug, PartialEq, Eq)]
pub struct RepositoryIndex {
    descriptors: Vec<RepositoryDescriptor>,
    names: Vec<String>,
}

impl View for RepositoryIndex {
    type V = Seq<RepositoryModel>;

    closed spec fn view(&self) -> Seq<RepositoryModel> {
        self.descriptors.deep_view()
    }
}

impl RepositoryIndex {
    #[verifier::type_invariant]
    spec fn names_follow_descriptors(self) -> bool {
        self.names.deep_view() == names_of(self.descriptors.deep_view())
    }

    /// Builds the index of `descriptors`, keeping their order.
    pub fn new(descriptors: Vec<RepositoryDescriptor>) -> (index: RepositoryIndex)
        ensures
            index@ == descriptors.deep_view(),
    {
        let mut names: Vec<String> = Vec::new();
        let mut i: usize = 0;
        while i < descriptors.len()
            invariant
                i <= descriptors.len(),
                names.len() == i,
                forall|k: int| 0 <= k < i ==> (#[trigger] names[k])@ == descriptors[k].name@,
            decreases descriptors.len() - i,
        {
            names.push(descriptors[i].name.clone());
            i += 1;
        }
        assert(names.deep_view() =~= names_of(descriptors.deep_view()));
        RepositoryIndex { descriptors, names }
    }

    /// The number of repositories.
    pub fn len(&self) -> (n: usize)
        ensures
            n == self@.len(),
    {
        self.descriptors.len()
    }

    /// The names, position by position.
    pub fn names(&self) -> (names: &Vec<String>)
        ensures
            names.deep_view() == names_of(self@),
    {
        proof {
            use_type_invariant(self);
        }
        &self.names
    }

    /// The repository at `position`; none where the position is past the end.
    pub fn resolve(&self, position: usize) -> (found: Option<&RepositoryDescriptor>)
        ensures
            found matches Some(d) ==> at_position(self@, position as int) == Some(d@),
            found is None ==> at_position(self@, position as int) is None,
    {
        if position < self.descriptors.len() {
            Some(&self.descriptors[position])
        } else {
            None
        }
    }

    /// The first repository called `name`; none where no repository is.
    pub fn find(&self, name: &str) -> (found: Option<&RepositoryDescriptor>)
        ensures
            found matches Some(d) ==> named(self@, name@) == Some(d@),
            found is None ==> named(self@, name@) is None,
    {
        let ghost repositories = self@;
        let wanted: String = name.to_owned();
        let mut i: usize = 0;
        while i < self.descriptors.len()
            invariant
                i <= self.descriptors.len(),
                repositories == self.descriptors.deep_view(),
                wanted@ == name@,
                forall|earlier: int|
                    0 <= earlier < i ==> (#[trigger] repositories[earlier]).name != name@,
            decreases self.descriptors.len() - i,
        {
            if self.descriptors[i].name == wanted {
                proof {
                    lemma_first_named_is_unique(
                        repositories,
                        name@,
                        i as int,
                        choose|position: int| first_named(repositories, name@, position),
                    );
                }
                return Some(&self.descriptors[i]);
            }
            i += 1;
        }
        None
    }
}

} // verus!
