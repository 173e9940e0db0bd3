//! What has to be set up before the application runs, and in which order.
//!
//! The steps touch the environment and the resource registry, so the caller
//! performs them. Here it is decided which steps there are.

use vstd::prelude::*;

verus! {

/// One thing to set up.
#[derive(Clone, Debug, PartialEq, Eq)]
pub enum InitStep {
    /// Make this list the directories that shared data is searched in.
    SetDataDirs(Vec<String>),
    /// Load the application's bundled resources and register them.
    RegisterResources,
    /// Tell the toolkit the application's name.
    NameApplication,
}

/// An [`InitStep`] as mathematical values.
pub enum InitStepView {
    SetDataDirs(Seq<Seq<char>>),
    RegisterResources,
    NameApplication,
}

impl View for InitStep {
    type V = InitStepView;

    open spec fn view(&self) -> InitStepView {
        match self {
            InitStep::SetDataDirs(dirs) => InitStepView::SetDataDirs(dirs.deep_view()),
            InitStep::RegisterResources => InitStepView::RegisterResources,
            InitStep::NameApplication => InitStepView::NameApplication,
        }
    }
}

impl DeepView for InitStep {
    type V = InitStepView;

    open spec fn deep_view(&self) -> InitStepView {
        self@
    }
}

/// The search list that makes sure of `datadir`: the directory put before
/// the others, or `None` where it is among them already.
pub open spec fn data_dirs_with(datadir: Seq<char>, dirs: Seq<Seq<char>>) -> Option<
    Seq<Seq<char>>,
> {
    if dirs.contains(datadir) {
        None
    } else {
        Some(seq![datadir] + dirs)
    }
}

/// The steps of the setup, in order: the search list first, where it has to
/// change, then the resources, then the name.
pub open spec fn startup_plan(datadir: Seq<char>, dirs: Seq<Seq<char>>) -> Seq<InitStepView> {
    match data_dirs_with(datadir, dirs) {
        Some(list) => seq![
            InitStepView::SetDataDirs(list),
            InitStepView::RegisterResources,
            InitStepView::NameApplication,
        ],
        None => seq![InitStepView::RegisterResources, InitStepView::NameApplication],
    }
}

/// Whether `dir` is among `dirs`.
fn listed(dirs: &Vec<String>, dir: &String) -> (found: bool)
    ensures
        found == dirs.deep_view().contains(dir@),
{
    let mut i: usize = 0;
    while i < dirs.len()
        invariant
            i <= dirs@.len(),
            forall|j: int| 0 <= j < i ==> dirs@[j]@ != dir@,
        decreases dirs@.len() - i,
    {
        if dirs[i] == *dir {
            assert(dirs.deep_view()[i as int] == dir@);
            return true;
        }
        i += 1;
    }
    assert forall|j: int| 0 <= j < dirs.deep_view().len() implies dirs.deep_view()[j] != dir@ by {
        assert(dirs.deep_view()[j] == dirs@[j]@);
    }
    false
}

/// Decides what the data search list has to become so that the
/// application's own data directory is in it.
///
/// `xdg_data_dirs` is the list as it stands, empty where none is set.
/// `None` says that nothing has to change.
pub fn init_data_dir(datadir: String, xdg_data_dirs: Vec<String>) -> (changed: Option<Vec<String>>)
    ensures
        changed.deep_view() == data_dirs_with(datadir@, xdg_data_dirs.deep_view()),
{
    if listed(&xdg_data_dirs, &datadir) {
        None
    } else {
        let ghost first = datadir@;
        let ghost others = xdg_data_dirs.deep_view();
        let mut xdg_data_dirs = xdg_data_dirs;
        let mut xdg_final_dirs: Vec<String> = Vec::new();
        xdg_final_dirs.push(datadir);
        xdg_final_dirs.append(&mut xdg_data_dirs);
        assert(xdg_final_dirs.deep_view() =~= seq![first] + others);
        Some(xdg_final_dirs)
    }
}

/// Plans the setup of the application's resources.
///
/// `datadir` is the application's own data directory, `xdg_data_dirs` the
/// data search list as it stands.
pub fn init_resources(datadir: String, xdg_data_dirs: Vec<String>) -> (steps: Vec<InitStep>)
    ensures
        steps.deep_view() == startup_plan(datadir@, xdg_data_dirs.deep_view()),
{
    let ghost plan = startup_plan(datadir@, xdg_data_dirs.deep_view());
    let mut steps: Vec<InitStep> = Vec::new();
    match init_data_dir(datadir, xdg_data_dirs) {
        Some(list) => {
            steps.push(InitStep::SetDataDirs(list));
        },
        None => {},
    }
    steps.push(InitStep::RegisterResources);
    steps.push(InitStep::NameApplication);
    assert(steps.deep_view() =~= plan);
    steps
}

} // verus!
