//! The menu of install actions: each action can be taken once, and the
//! choice that ends the menu is offered only after an action was taken.

use vstd::prelude::*;
use crate::config::package::{all_install_options_besides_noop, PackageInstallOption};

verus! {

/// Why a choice was refused.
#[derive(Debug, Clone, Copy, PartialEq, Eq, Structural)]
pub enum MenuError {
    /// The option is not among those offered now.
    NotOffered,
}

/// The states of the menu.
pub enum MenuState {
    /// `remaining` are the actions not taken yet.
    Offering { remaining: Seq<PackageInstallOption>, any_chosen: bool },
    Done,
}

/// `options` without every occurrence of `option`.
pub open spec fn without(
    options: Seq<PackageInstallOption>,
    option: PackageInstallOption,
) -> Seq<PackageInstallOption> {
    options.filter(|other: PackageInstallOption| other != option)
}

impl MenuState {
    /// The choice that ends the menu is never among the actions.
    pub open spec fn wf(self) -> bool {
        self matches MenuState::Offering { remaining, .. } ==> !remaining.contains(
            PackageInstallOption::NoOp,
        )
    }

    /// Every action is still to be taken.
    pub open spec fn start() -> MenuState {
        MenuState::Offering { remaining: seq![PackageInstallOption::Binary], any_chosen: false }
    }

    /// What is offered: the remaining actions, and before them the
    /// choice to stop once an action was taken.
    pub open spec fn offered(self) -> Seq<PackageInstallOption> {
        match self {
            MenuState::Offering { remaining, any_chosen } => if any_chosen {
                seq![PackageInstallOption::NoOp] + remaining
            } else {
                remaining
            },
            MenuState::Done => Seq::empty(),
        }
    }

    /// The state after `option` was chosen, where it was offered.
    pub open spec fn select(self, option: PackageInstallOption) -> Result<MenuState, MenuError> {
        match self {
            MenuState::Offering { remaining, any_chosen } => if option
                == PackageInstallOption::NoOp {
                if any_chosen {
                    Ok(MenuState::Done)
                } else {
                    Err(MenuError::NotOffered)
                }
            } else if remaining.contains(option) {
                Ok(MenuState::Offering { remaining: without(remaining, option), any_chosen: true })
            } else {
                Err(MenuError::NotOffered)
            },
            MenuState::Done => Err(MenuError::NotOffered),
        }
    }

    /// How many choices can still be made, at most.
    pub open spec fn selections_left(self) -> nat {
        match self {
            MenuState::Offering { remaining, .. } => remaining.len() + 1,
            MenuState::Done => 0,
        }
    }
}

/// Taking every occurrence of a member out leaves fewer options, none of
/// them the member, and nothing that was not there.
pub proof fn lemma_without(options: Seq<PackageInstallOption>, option: PackageInstallOption)
    ensures
        !without(options, option).contains(option),
        forall|other: PackageInstallOption|
            without(options, option).contains(other) <==> (options.contains(other) && other
                != option),
        without(options, option).len() <= options.len(),
        options.contains(option) ==> without(options, option).len() < options.len(),
        !options.contains(option) ==> without(options, option) == options,
    decreases options.len(),
{
    let keep = |other: PackageInstallOption| other != option;
    reveal(Seq::filter);
    if options.len() > 0 {
        let front = options.drop_last();
        lemma_without(front, option);
        assert(options =~= front.push(options.last()));
        assert forall|other: PackageInstallOption|
            without(options, option).contains(other) <==> (options.contains(other) && other
                != option) by {
            if without(options, option).contains(other) {
                let i = choose|i: int|
                    0 <= i < without(options, option).len() && without(options, option)[i]
                        == other;
                if keep(options.last()) && i == without(front, option).len() {
                    assert(options[options.len() - 1] == other);
                } else {
                    assert(without(front, option)[i] == other);
                    assert(front.contains(other));
                    let j = choose|j: int| 0 <= j < front.len() && front[j] == other;
                    assert(options[j] == other);
                }
            }
            if options.contains(other) && other != option {
                let j = choose|j: int| 0 <= j < options.len() && options[j] == other;
                if j == options.len() - 1 {
                    assert(without(options, option)[without(front, option).len() as int]
                        == other);
                } else {
                    assert(front[j] == other);
                    assert(without(front, option).contains(other));
                    let i = choose|i: int|
                        0 <= i < without(front, option).len() && without(front, option)[i]
                            == other;
                    assert(without(options, option)[i] == other);
                }
            }
        }
        if options.contains(option) && !front.contains(option) {
            let j = choose|j: int| 0 <= j < options.len() && options[j] == option;
            if j < options.len() - 1 {
                assert(front[j] == option);
            }
        }
        if !options.contains(option) {
            assert(options[options.len() - 1] != option);
            assert forall|j: int| 0 <= j < front.len() implies front[j] != option by {
                assert(options[j] == front[j]);
            }
            assert(without(options, option) =~= options);
        }
    } else {
        assert(without(options, option) =~= options);
    }
}

/// The choice to stop is offered exactly when an action was taken.
pub proof fn lemma_stop_follows_choice(menu: MenuState)
    requires
        menu.wf(),
    ensures
        menu.offered().contains(PackageInstallOption::NoOp) <==> (menu matches MenuState::Offering {
            any_chosen,
            ..
        } && any_chosen),
{
    if let MenuState::Offering { remaining, any_chosen } = menu {
        if any_chosen {
            assert(menu.offered()[0] == PackageInstallOption::NoOp);
        }
    }
}

/// A choice succeeds exactly on what is offered.
pub proof fn lemma_offered_is_chosen(menu: MenuState, option: PackageInstallOption)
    requires
        menu.wf(),
    ensures
        menu.select(option) is Ok <==> menu.offered().contains(option),
{
    if let MenuState::Offering { remaining, any_chosen } = menu {
        if any_chosen {
            assert(menu.offered()[0] == PackageInstallOption::NoOp);
            if menu.offered().contains(option) {
                let i = choose|i: int| 0 <= i < menu.offered().len() && menu.offered()[i] == option;
                if i > 0 {
                    assert(remaining[i - 1] == option);
                }
            }
            if remaining.contains(option) {
                let i = choose|i: int| 0 <= i < remaining.len() && remaining[i] == option;
                assert(menu.offered()[i + 1] == option);
            }
        }
    }
}

/// Every choice made leaves fewer choices to make, keeps the menu well
/// formed, and an action once taken is not offered again.
pub proof fn lemma_choice_shrinks(menu: MenuState, option: PackageInstallOption)
    requires
        menu.wf(),
        menu.select(option) is Ok,
    ensures
        menu.select(option)->Ok_0.wf(),
        menu.select(option)->Ok_0.selections_left() < menu.selections_left(),
        option != PackageInstallOption::NoOp ==> !menu.select(option)->Ok_0.offered().contains(
            option,
        ),
{
    if let MenuState::Offering { remaining, any_chosen } = menu {
        lemma_without(remaining, option);
        if option != PackageInstallOption::NoOp {
            let next = menu.select(option)->Ok_0;
            lemma_offered_is_chosen(next, option);
        }
    }
}

/// With one action to take, the menu ends after two choices and no
/// sooner: the action is all that is offered first, then the choice to
/// stop is all that is offered, and then the menu is done.
pub proof fn lemma_single_action(action: PackageInstallOption)
    requires
        action != PackageInstallOption::NoOp,
    ensures
        ({
            let first = MenuState::Offering { remaining: seq![action], any_chosen: false };
            let second = first.select(action)->Ok_0;
            &&& first.offered() == seq![action]
            &&& first.select(action) is Ok
            &&& second.offered() == seq![PackageInstallOption::NoOp]
            &&& second.select(PackageInstallOption::NoOp) == Ok::<MenuState, MenuError>(
                MenuState::Done,
            )
            &&& forall|other: PackageInstallOption|
                other != action ==> first.select(other) is Err
            &&& forall|other: PackageInstallOption|
                other != PackageInstallOption::NoOp ==> second.select(other) is Err
        }),
{
    let remaining = seq![action];
    let first = MenuState::Offering { remaining, any_chosen: false };
    assert(remaining[0] == action);
    lemma_without(remaining, action);
    let rest = without(remaining, action);
    assert(rest.len() == 0);
    assert(rest =~= Seq::empty());
    let second = first.select(action)->Ok_0;
    assert(second.offered() =~= seq![PackageInstallOption::NoOp]);
}

/// The menu of install actions, as it stands.
#[derive(Debug, PartialEq, Eq)]
pub struct InstallMenu {
    remaining: Vec<PackageInstallOption>,
    any_chosen: bool,
    done: bool,
}

impl View for InstallMenu {
    type V = MenuState;

    closed spec fn view(&self) -> MenuState {
        if self.done {
            MenuState::Done
        } else {
            MenuState::Offering { remaining: self.remaining@, any_chosen: self.any_chosen }
        }
    }
}

impl InstallMenu {
    #[verifier::type_invariant]
    spec fn well_formed(self) -> bool {
        self@.wf()
    }

    /// The menu before any choice.
    pub fn start() -> (r: InstallMenu)
        ensures
            r@ == MenuState::start(),
    {
        let remaining = all_install_options_besides_noop();
        assert(remaining@[0] == PackageInstallOption::Binary);
        InstallMenu { remaining, any_chosen: false, done: false }
    }

    /// Whether the menu has ended.
    pub fn is_done(&self) -> (r: bool)
        ensures
            r == (self@ is Done),
    {
        self.done
    }

    /// Whether an action was taken.
    pub fn any_chosen(&self) -> (r: bool)
        ensures
            r == (self@ matches MenuState::Offering { any_chosen, .. } && any_chosen),
    {
        !self.done && self.any_chosen
    }

    /// What to offer now.
    pub fn offered(&self) -> (r: Vec<PackageInstallOption>)
        ensures
            r@ == self@.offered(),
    {
        let mut out: Vec<PackageInstallOption> = Vec::new();
        if self.done {
            return out;
        }
        if self.any_chosen {
            out.push(PackageInstallOption::NoOp);
        }
        let ghost head = out@;
        let mut i: usize = 0;
        while i < self.remaining.len()
            invariant
                i <= self.remaining@.len(),
                out@ == head + self.remaining@.subrange(0, i as int),
            decreases self.remaining@.len() - i,
        {
            out.push(self.remaining[i]);
            assert(self.remaining@.subrange(0, i + 1) == self.remaining@.subrange(
                0,
                i as int,
            ).push(self.remaining@[i as int]));
            i += 1;
        }
        assert(self.remaining@.subrange(0, i as int) == self.remaining@);
        out
    }

    /// Takes `option`, where it is offered; otherwise nothing changes.
    pub fn select(&mut self, option: PackageInstallOption) -> (r: Result<(), MenuError>)
        ensures
            match old(self)@.select(option) {
                Ok(next) => r is Ok && final(self)@ == next,
                Err(e) => r == Err::<(), MenuError>(e) && final(self)@ == old(self)@,
            },
    {
        proof {
            use_type_invariant(&*self);
        }
        if self.done {
            return Err(MenuError::NotOffered);
        }
        if option == PackageInstallOption::NoOp {
            if self.any_chosen {
                self.done = true;
                return Ok(());
            }
            return Err(MenuError::NotOffered);
        }
        let mut kept: Vec<PackageInstallOption> = Vec::new();
        let mut i: usize = 0;
        while i < self.remaining.len()
            invariant
                i <= self.remaining@.len(),
                kept@ == without(self.remaining@.subrange(0, i as int), option),
            decreases self.remaining@.len() - i,
        {
            let here = self.remaining[i];
            proof {
                reveal(Seq::filter);
                assert(self.remaining@.subrange(0, i + 1).drop_last()
                    == self.remaining@.subrange(0, i as int));
            }
            if here != option {
                kept.push(here);
            }
            i += 1;
        }
        proof {
            assert(self.remaining@.subrange(0, i as int) == self.remaining@);
            lemma_without(self.remaining@, option);
        }
        if kept.len() == self.remaining.len() {
            return Err(MenuError::NotOffered);
        }
        self.remaining = kept;
        self.any_chosen = true;
        Ok(())
    }
}

} // verus!
