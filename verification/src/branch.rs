//! The branch of a run: which one is meant, and how it is found or
//! created at the backend.
//!
//! Finding a branch takes questions to the backend. The resolver decides
//! which question comes next and what the answers amount to; asking them
//! is left to the caller.

use vstd::prelude::*;
use crate::error::CliError;
use crate::resource::is_branch_name;
use crate::resource::is_valid_branch_name;
use crate::resource::reads_as;
use crate::resource::ResourceId;

verus! {

/// The environment variable that holds the branch.
pub const BENCHER_BRANCH: &'static str = "BENCHER_BRANCH";

/// The branch of a run where nothing else is said.
pub const BRANCH_MAIN_STR: &'static str = "main";

/// What the command line says of the branch of a run.
#[derive(Debug, Clone, PartialEq, Eq)]
pub struct CliRunBranch {
    /// Branch slug or UUID.
    pub branch: Option<ResourceId>,
    /// Run if a branch of this name exists; present without a name where
    /// the name could not be had.
    pub if_branch: Option<Option<String>>,
    /// Else create the branch from the first of these that exists.
    pub else_if_branch: Vec<String>,
    /// Else create the branch anew.
    pub else_branch: bool,
    pub endif_branch: bool,
}

/// The branch of a run.
#[derive(Debug, Clone, PartialEq, Eq)]
pub enum Branch {
    /// A branch that is named outright.
    ResourceId(ResourceId),
    /// A branch to be found by its name, or else created.
    Name { name: String, start_points: Vec<String>, create: bool },
    /// No branch: the run is skipped.
    Missing,
}

/// A question to the backend.
#[derive(Debug, Clone, PartialEq, Eq)]
pub enum BranchQuery {
    /// Which branches of the project have this name?
    Find { name: String },
    /// Create a branch of this name, as a copy of the start point where
    /// there is one.
    Create { name: String, start_point: Option<u128> },
}

/// An answer of the backend.
#[derive(Debug, Clone, PartialEq, Eq)]
pub enum BranchAnswer {
    /// The branches of the name that was asked for.
    Found(Vec<u128>),
    /// The branch that was created.
    Created(u128),
}

/// An answer of the backend, with the branches as a sequence.
pub enum Reply {
    Found(Seq<u128>),
    Created(u128),
}

/// The answer as a reply.
pub open spec fn reply_of(answer: BranchAnswer) -> Reply {
    match answer {
        BranchAnswer::Found(branches) => Reply::Found(branches@),
        BranchAnswer::Created(id) => Reply::Created(id),
    }
}

/// The question that a resolver waits to have answered.
#[derive(Debug, Clone, Copy, PartialEq, Eq, Structural)]
pub enum Stage {
    /// Whether the branch exists.
    Name,
    /// Whether the start point of this index exists.
    StartPoint(usize),
    /// The creation of the branch from the start point of this index.
    CreateFrom(usize),
    /// The creation of the branch anew.
    Create,
    /// None: the search is over.
    Done,
}

/// How far the search has come.
#[derive(Debug, Clone, PartialEq, Eq)]
pub enum Progress {
    /// The backend has to be asked.
    Ask(BranchQuery),
    /// The search is over, with this branch or without one.
    Done(Option<u128>),
}

/// The search for the branch of a run.
#[derive(Debug, Clone, PartialEq, Eq)]
pub struct Resolver {
    pub project: String,
    pub name: String,
    /// The start points in their order, each as a branch name; `None`
    /// where the text is no branch name.
    pub start_points: Vec<Option<String>>,
    /// Whether to create the branch anew where no start point exists.
    pub create: bool,
    /// Whether the run is for show only: then nothing is created anew.
    pub dry_run: bool,
    pub stage: Stage,
}

/// The body of the request that creates a branch.
#[derive(Debug, Clone, PartialEq, Eq)]
pub struct NewBranch {
    pub name: String,
    pub slug: Option<String>,
    pub soft: Option<bool>,
    pub start_point: Option<StartPoint>,
}

/// The branch that a new branch starts from.
#[derive(Debug, Clone, PartialEq, Eq)]
pub struct StartPoint {
    pub branch: ResourceId,
    /// Whether the thresholds of the start point are copied.
    pub thresholds: Option<bool>,
}

/// The first step of finding the branch of a run.
#[derive(Debug, Clone, PartialEq, Eq)]
pub enum Resolution {
    /// Nothing to find: the branch is named outright, or there is none.
    Resolved(Option<ResourceId>),
    /// The search is on, with a first question.
    Resolving(Resolver, BranchQuery),
}

/// A UUID with the version and variant bits of a random one.
pub open spec fn is_random_uuid(id: u128) -> bool {
    id & 0xF000_C000_0000_0000_0000 == 0x4000_8000_0000_0000_0000
}

/// Calls `uuid::Uuid::new_v4` and hands back the number of the UUID. The
/// contract claims that the version bits say four and the variant bits say
/// RFC 4122, which the crate sets by a mask; the rest is random. The crate
/// stops the program where the system has no random numbers to give.
#[verifier::external_body]
pub(crate) fn new_v4() -> (id: u128)
    ensures
        is_random_uuid(id),
{
    uuid::Uuid::new_v4().as_u128()
}

/// The index of the first start point at or after `from` that is a branch
/// name; the number of start points where there is none.
pub open spec fn first_start_point(points: Seq<Option<String>>, from: int) -> int
    decreases points.len() - from,
{
    if from < 0 || from >= points.len() {
        points.len() as int
    } else if points[from] is Some {
        from
    } else {
        first_start_point(points, from + 1)
    }
}

/// The start points as branch names; `None` for a text that is no branch
/// name.
pub open spec fn branch_names(texts: Seq<String>) -> Seq<Option<String>> {
    Seq::new(
        texts.len(),
        |i: int|
            if is_branch_name(texts[i]@) {
                Some(texts[i])
            } else {
                None
            },
    )
}

/// Reads the start points as branch names.
pub fn read_start_points(texts: &Vec<String>) -> (names: Vec<Option<String>>)
    ensures
        names@ == branch_names(texts@),
{
    let mut names: Vec<Option<String>> = Vec::new();
    let mut i: usize = 0;
    while i < texts.len()
        invariant
            i <= texts.len(),
            names@ == branch_names(texts@.take(i as int)),
        decreases texts.len() - i,
    {
        let name: Option<String> = if is_valid_branch_name(texts[i].as_str()) {
            Some(texts[i].clone())
        } else {
            None
        };
        names.push(name);
        proof {
            assert(names@ =~= branch_names(texts@.take(i + 1)));
        }
        i += 1;
    }
    assert(texts@.take(texts.len() as int) =~= texts@);
    names
}

impl Branch {
    /// The branch that the command line and the environment describe: the
    /// branch of the command line where it names one, else the branch of
    /// the environment, else the branch to be found by name, else `main`.
    /// `env_branch` is what the environment holds under `BENCHER_BRANCH`;
    /// it has to name a resource.
    pub fn try_from(run_branch: CliRunBranch, env_branch: Option<String>) -> (branch: Result<
        Branch,
        CliError,
    >)
        ensures
            run_branch.branch matches Some(id) ==> branch == Ok::<Branch, CliError>(
                Branch::ResourceId(id),
            ),
            run_branch.branch is None ==> match (env_branch, run_branch.if_branch) {
                (Some(text), _) => match branch {
                    Ok(Branch::ResourceId(id)) => reads_as(Ok(id), text@),
                    Ok(_) => false,
                    Err(e) => reads_as(Err(e), text@),
                },
                (None, Some(Some(name))) => branch == Ok::<Branch, CliError>(
                    Branch::Name {
                        name,
                        start_points: run_branch.else_if_branch,
                        create: run_branch.else_branch,
                    },
                ),
                (None, Some(None)) => branch == Ok::<Branch, CliError>(Branch::Missing),
                (None, None) => branch matches Ok(Branch::ResourceId(ResourceId::Slug(slug)))
                    && slug@ == BRANCH_MAIN_STR@,
            },
    {
        let CliRunBranch { branch, if_branch, else_if_branch, else_branch, endif_branch: _ } =
            run_branch;
        if let Some(id) = branch {
            Ok(Branch::ResourceId(id))
        } else if let Some(text) = env_branch {
            match ResourceId::from_str(text.as_str()) {
                Ok(id) => Ok(Branch::ResourceId(id)),
                Err(e) => Err(e),
            }
        } else if let Some(branch_name) = if_branch {
            if let Some(name) = branch_name {
                Ok(Branch::Name { name, start_points: else_if_branch, create: else_branch })
            } else {
                Ok(Branch::Missing)
            }
        } else {
            Ok(Branch::ResourceId(ResourceId::Slug(BRANCH_MAIN_STR.to_owned())))
        }
    }

    /// Begins to find the branch at the backend. A branch that is named
    /// outright needs no search, and neither does none. The start points of
    /// a branch to be found by name are read as branch names.
    pub fn resource_id(&self, project: &str, dry_run: bool) -> (resolution: Resolution)
        ensures
            match *self {
                Branch::ResourceId(id) => resolution == Resolution::Resolved(Some(id)),
                Branch::Missing => resolution == Resolution::Resolved(None),
                Branch::Name { name, start_points, create } => {
                    &&& resolution matches Resolution::Resolving(resolver, query)
                    &&& resolver.project@ == project@
                    &&& resolver.name == name
                    &&& resolver.start_points@ == branch_names(start_points@)
                    &&& resolver.create == create
                    &&& resolver.dry_run == dry_run
                    &&& resolver.stage == Stage::Name
                    &&& query == (BranchQuery::Find { name })
                },
            },
    {
        match self {
            Branch::ResourceId(id) => Resolution::Resolved(Some(id.copy())),
            Branch::Missing => Resolution::Resolved(None),
            Branch::Name { name, start_points, create } => {
                let resolver = Resolver {
                    project: project.to_owned(),
                    name: name.clone(),
                    start_points: read_start_points(start_points),
                    create: *create,
                    dry_run,
                    stage: Stage::Name,
                };
                Resolution::Resolving(resolver, BranchQuery::Find { name: name.clone() })
            },
        }
    }
}

/// What the branches of one name amount to: none, the one, or an error
/// where there are several.
pub open spec fn only_branch(project: String, name: String, branches: Seq<u128>) -> Result<
    Option<u128>,
    CliError,
> {
    if branches.len() == 0 {
        Ok(None)
    } else if branches.len() == 1 {
        Ok(Some(branches[0]))
    } else {
        Err(CliError::BranchName(project, name, branches.len() as usize))
    }
}

/// Reads the answer to the question which branches have a name.
pub fn get_branch(project: &String, name: &String, branches: &Vec<u128>) -> (branch: Result<
    Option<u128>,
    CliError,
>)
    ensures
        branch == only_branch(*project, *name, branches@),
{
    let count: usize = branches.len();
    if count == 0 {
        Ok(None)
    } else if count == 1 {
        Ok(Some(branches[0]))
    } else {
        Err(CliError::BranchName(project.clone(), name.clone(), count))
    }
}

/// The body of the request that creates a branch: a soft creation under
/// the given name, without a slug, and with the thresholds of the start
/// point where there is one.
pub fn create_branch(name: String, start_point: Option<ResourceId>) -> (body: NewBranch)
    ensures
        body.name == name,
        body.slug is None,
        body.soft == Some(true),
        body.start_point == match start_point {
            Some(branch) => Some(StartPoint { branch, thresholds: Some(true) }),
            None => None,
        },
{
    let start_point = match start_point {
        Some(branch) => Some(StartPoint { branch, thresholds: Some(true) }),
        None => None,
    };
    NewBranch { name, slug: None, soft: Some(true), start_point }
}

impl Resolver {
    /// The resolver with the search over.
    pub open spec fn finished(self) -> Resolver {
        Resolver { stage: Stage::Done, ..self }
    }

    /// What is left when no start point exists: to create the branch anew
    /// if that is asked for, which a dry run does for show only, under the
    /// UUID `fresh`.
    pub open spec fn fallback(self, fresh: u128) -> (Resolver, Progress) {
        if !self.create {
            (self.finished(), Progress::Done(None))
        } else if self.dry_run {
            (self.finished(), Progress::Done(Some(fresh)))
        } else {
            (
                Resolver { stage: Stage::Create, ..self },
                Progress::Ask(BranchQuery::Create { name: self.name, start_point: None }),
            )
        }
    }

    /// The search goes on with the first start point at or after `from`
    /// that is a branch name, and falls back where there is none.
    pub open spec fn seek(self, from: int, fresh: u128) -> (Resolver, Progress) {
        let index = first_start_point(self.start_points@, from);
        if index < self.start_points.len() {
            (
                Resolver { stage: Stage::StartPoint(index as usize), ..self },
                Progress::Ask(BranchQuery::Find { name: self.start_points[index]->0 }),
            )
        } else {
            self.fallback(fresh)
        }
    }

    /// Whether a dry run is about to stand in for the creation of the
    /// branch: then a fresh UUID is wanted.
    pub open spec fn wants_fresh(self, answer: BranchAnswer) -> bool {
        &&& answer matches BranchAnswer::Found(branches)
        &&& branches.len() == 0
        &&& self.create
        &&& self.dry_run
        &&& match self.stage {
            Stage::Name => first_start_point(self.start_points@, 0) >= self.start_points.len(),
            Stage::StartPoint(index) => index < self.start_points.len()
                && self.start_points[index as int] is Some && first_start_point(
                self.start_points@,
                index + 1,
            ) >= self.start_points.len(),
            _ => false,
        }
    }

    /// The search after a reply. A branch that exists is the result. If
    /// it does not, the start points are asked for in their order, and the
    /// branch is created from the first that exists. If none does, the
    /// fallback holds. Several branches of one name are an error, and so is
    /// a reply to a question that was not asked.
    pub open spec fn after_reply(self, reply: Reply, fresh: u128) -> Result<
        (Resolver, Progress),
        CliError,
    > {
        match (self.stage, reply) {
            (Stage::Name, Reply::Found(branches)) => match only_branch(
                self.project,
                self.name,
                branches,
            ) {
                Err(e) => Err(e),
                Ok(Some(id)) => Ok((self.finished(), Progress::Done(Some(id)))),
                Ok(None) => Ok(self.seek(0, fresh)),
            },
            (Stage::StartPoint(index), Reply::Found(branches)) => if index
                < self.start_points.len() && self.start_points[index as int] is Some {
                match only_branch(self.project, self.start_points[index as int]->0, branches) {
                    Err(e) => Err(e),
                    Ok(Some(id)) => Ok(
                        (
                            Resolver { stage: Stage::CreateFrom(index), ..self },
                            Progress::Ask(
                                BranchQuery::Create { name: self.name, start_point: Some(id) },
                            ),
                        ),
                    ),
                    Ok(None) => Ok(self.seek(index + 1, fresh)),
                }
            } else {
                Err(CliError::UnexpectedReply)
            },
            (Stage::CreateFrom(_), Reply::Created(id)) => Ok(
                (self.finished(), Progress::Done(Some(id))),
            ),
            (Stage::Create, Reply::Created(id)) => Ok((self.finished(), Progress::Done(Some(id)))),
            _ => Err(CliError::UnexpectedReply),
        }
    }

    /// The search after an answer.
    pub open spec fn after(self, answer: BranchAnswer, fresh: u128) -> Result<
        (Resolver, Progress),
        CliError,
    > {
        self.after_reply(reply_of(answer), fresh)
    }

    /// Begins the search for a branch by its name.
    pub fn new(
        project: String,
        name: String,
        start_points: Vec<Option<String>>,
        create: bool,
        dry_run: bool,
    ) -> (begun: (Resolver, BranchQuery))
        ensures
            begun.0 == (Resolver { project, name, start_points, create, dry_run, stage: Stage::Name }),
            begun.1 == (BranchQuery::Find { name }),
    {
        let query = BranchQuery::Find { name: name.clone() };
        (Resolver { project, name, start_points, create, dry_run, stage: Stage::Name }, query)
    }

    /// Finds the first start point at or after `from` that is a branch
    /// name.
    fn next_start_point(&self, from: usize) -> (index: usize)
        requires
            from <= self.start_points.len(),
        ensures
            index == first_start_point(self.start_points@, from as int),
            from <= index <= self.start_points.len(),
            index < self.start_points.len() ==> self.start_points[index as int] is Some,
    {
        let mut index: usize = from;
        while index < self.start_points.len() && self.start_points[index].is_none()
            invariant
                from <= index <= self.start_points.len(),
                first_start_point(self.start_points@, from as int) == first_start_point(
                    self.start_points@,
                    index as int,
                ),
            decreases self.start_points.len() - index,
        {
            index += 1;
        }
        index
    }

    fn seek_from(self, from: usize, fresh: u128) -> (step: (Resolver, Progress))
        requires
            from <= self.start_points.len(),
        ensures
            step == self.seek(from as int, fresh),
    {
        let index: usize = self.next_start_point(from);
        if index < self.start_points.len() {
            let name: String = match &self.start_points[index] {
                Some(point) => point.clone(),
                None => String::new(),
            };
            let Resolver { project, name: branch, start_points, create, dry_run, stage: _ } = self;
            (
                Resolver {
                    project,
                    name: branch,
                    start_points,
                    create,
                    dry_run,
                    stage: Stage::StartPoint(index),
                },
                Progress::Ask(BranchQuery::Find { name }),
            )
        } else {
            let Resolver { project, name, start_points, create, dry_run, stage: _ } = self;
            if !create {
                (
                    Resolver { project, name, start_points, create, dry_run, stage: Stage::Done },
                    Progress::Done(None),
                )
            } else if dry_run {
                (
                    Resolver { project, name, start_points, create, dry_run, stage: Stage::Done },
                    Progress::Done(Some(fresh)),
                )
            } else {
                let query = BranchQuery::Create { name: name.clone(), start_point: None };
                (
                    Resolver { project, name, start_points, create, dry_run, stage: Stage::Create },
                    Progress::Ask(query),
                )
            }
        }
    }

    fn finish(self, branch: Option<u128>) -> (step: (Resolver, Progress))
        ensures
            step == (self.finished(), Progress::Done(branch)),
    {
        let Resolver { project, name, start_points, create, dry_run, stage: _ } = self;
        (
            Resolver { project, name, start_points, create, dry_run, stage: Stage::Done },
            Progress::Done(branch),
        )
    }

    /// Takes the search one answer further. `fresh` is the UUID that a dry
    /// run shows in place of a branch that it does not create.
    pub fn answer_with(self, answer: BranchAnswer, fresh: u128) -> (step: Result<
        (Resolver, Progress),
        CliError,
    >)
        ensures
            step == self.after(answer, fresh),
    {
        match answer {
            BranchAnswer::Found(branches) => match self.stage {
                Stage::Name => match get_branch(&self.project, &self.name, &branches) {
                    Err(e) => Err(e),
                    Ok(Some(id)) => Ok(self.finish(Some(id))),
                    Ok(None) => Ok(self.seek_from(0, fresh)),
                },
                Stage::StartPoint(index) => {
                    if index >= self.start_points.len() {
                        return Err(CliError::UnexpectedReply);
                    }
                    let found = match &self.start_points[index] {
                        None => {
                            return Err(CliError::UnexpectedReply);
                        },
                        Some(point) => get_branch(&self.project, point, &branches),
                    };
                    match found {
                        Err(e) => Err(e),
                        Ok(Some(id)) => {
                            let query = BranchQuery::Create {
                                name: self.name.clone(),
                                start_point: Some(id),
                            };
                            let Resolver {
                                project,
                                name,
                                start_points,
                                create,
                                dry_run,
                                stage: _,
                            } = self;
                            Ok(
                                (
                                    Resolver {
                                        project,
                                        name,
                                        start_points,
                                        create,
                                        dry_run,
                                        stage: Stage::CreateFrom(index),
                                    },
                                    Progress::Ask(query),
                                ),
                            )
                        },
                        Ok(None) => Ok(self.seek_from(index + 1, fresh)),
                    }
                },
                _ => Err(CliError::UnexpectedReply),
            },
            BranchAnswer::Created(id) => match self.stage {
                Stage::CreateFrom(_) => Ok(self.finish(Some(id))),
                Stage::Create => Ok(self.finish(Some(id))),
                _ => Err(CliError::UnexpectedReply),
            },
        }
    }

    /// Tells whether the answer makes a dry run stand in for the creation
    /// of the branch.
    pub fn needs_fresh(&self, answer: &BranchAnswer) -> (wanted: bool)
        ensures
            wanted == self.wants_fresh(*answer),
    {
        if !(self.create && self.dry_run) {
            return false;
        }
        match answer {
            BranchAnswer::Found(branches) => {
                if branches.len() != 0 {
                    return false;
                }
                match self.stage {
                    Stage::Name => self.next_start_point(0) >= self.start_points.len(),
                    Stage::StartPoint(index) => index < self.start_points.len()
                        && self.start_points[index].is_some() && self.next_start_point(index + 1)
                        >= self.start_points.len(),
                    _ => false,
                }
            },
            BranchAnswer::Created(_) => false,
        }
    }

    /// Takes the search one answer further. Where a dry run stands in for
    /// the creation of the branch, the branch it shows has a random UUID.
    pub fn answer(self, answer: BranchAnswer) -> (step: Result<(Resolver, Progress), CliError>)
        ensures
            !self.wants_fresh(answer) ==> step == self.after(answer, 0),
            self.wants_fresh(answer) ==> {
                &&& step matches Ok((resolver, Progress::Done(Some(id))))
                &&& is_random_uuid(id)
                &&& resolver == self.finished()
                &&& step == self.after(answer, id)
            },
    {
        if self.needs_fresh(&answer) {
            let fresh: u128 = new_v4();
            self.answer_with(answer, fresh)
        } else {
            proof {
                lemma_fresh_unused(self, answer, 0);
            }
            self.answer_with(answer, 0)
        }
    }
}

/// The fresh UUID shows in the result only where it is wanted, and there it
/// is the result.
pub proof fn lemma_fresh_unused(resolver: Resolver, answer: BranchAnswer, fresh: u128)
    ensures
        !resolver.wants_fresh(answer) ==> resolver.after(answer, fresh) == resolver.after(answer, 0),
        resolver.wants_fresh(answer) ==> resolver.after(answer, fresh) == Ok::<
            (Resolver, Progress),
            CliError,
        >((resolver.finished(), Progress::Done(Some(fresh)))),
{
}

/// A project as the search sees it: the branches that exist, by name, and
/// the UUID that the next branch gets.
pub struct Project {
    pub branches: Map<String, u128>,
    pub next: u128,
}

impl Project {
    /// The reply of the project to a question. Nothing changes in the
    /// project but by the creation that ends the search.
    pub open spec fn reply(self, query: BranchQuery) -> Reply {
        match query {
            BranchQuery::Find { name } => if self.branches.dom().contains(name) {
                Reply::Found(seq![self.branches[name]])
            } else {
                Reply::Found(Seq::empty())
            },
            BranchQuery::Create { .. } => Reply::Created(self.next),
        }
    }
}

/// The index of the first start point at or after `from` that is a branch
/// name of a branch that exists; the number of start points where there is
/// none.
pub open spec fn first_existing(points: Seq<Option<String>>, project: Project, from: int) -> int
    decreases points.len() - from,
{
    if from < 0 || from >= points.len() {
        points.len() as int
    } else if points[from] is Some && project.branches.dom().contains(points[from]->0) {
        from
    } else {
        first_existing(points, project, from + 1)
    }
}

/// What the search comes to when the start points from `from` on are still
/// to be asked for: a new branch where one of them exists, and else the
/// fallback.
pub open spec fn outcome_from(resolver: Resolver, project: Project, fresh: u128, from: int)
    -> Option<u128> {
    if first_existing(resolver.start_points@, project, from) < resolver.start_points.len() {
        Some(project.next)
    } else if !resolver.create {
        None
    } else if resolver.dry_run {
        Some(fresh)
    } else {
        Some(project.next)
    }
}

/// What the search for a branch comes to: the branch where it exists, and
/// else a new branch from the first start point that exists, and else the
/// fallback.
pub open spec fn outcome(resolver: Resolver, project: Project, fresh: u128) -> Option<u128> {
    if project.branches.dom().contains(resolver.name) {
        Some(project.branches[resolver.name])
    } else {
        outcome_from(resolver, project, fresh, 0)
    }
}

/// The search run against a project, for at most `steps` questions: `None`
/// where these are not enough.
pub open spec fn run(
    resolver: Resolver,
    progress: Progress,
    project: Project,
    fresh: u128,
    steps: nat,
) -> Option<Result<Option<u128>, CliError>>
    decreases steps,
{
    match progress {
        Progress::Done(branch) => Some(Ok(branch)),
        Progress::Ask(query) => if steps == 0 {
            None
        } else {
            match resolver.after_reply(project.reply(query), fresh) {
                Err(e) => Some(Err(e)),
                Ok((next, asked)) => run(next, asked, project, fresh, (steps - 1) as nat),
            }
        },
    }
}

proof fn lemma_first_existing_skips(points: Seq<Option<String>>, project: Project, from: int, to: int)
    requires
        0 <= from <= to <= points.len(),
        forall|i: int|
            from <= i < to ==> !((#[trigger] points[i]) is Some && project.branches.dom().contains(
                points[i]->0,
            )),
    ensures
        first_existing(points, project, from) == first_existing(points, project, to),
    decreases to - from,
{
    if from < to {
        assert(!(points[from] is Some && project.branches.dom().contains(points[from]->0)));
        lemma_first_existing_skips(points, project, from + 1, to);
    }
}

proof fn lemma_first_start_point(points: Seq<Option<String>>, from: int)
    requires
        0 <= from <= points.len(),
    ensures
        from <= first_start_point(points, from) <= points.len(),
        first_start_point(points, from) < points.len() ==> points[first_start_point(
            points,
            from,
        )] is Some,
        forall|i: int| from <= i < first_start_point(points, from) ==> (#[trigger] points[i]) is None,
    decreases points.len() - from,
{
    if from < points.len() && points[from] is None {
        lemma_first_start_point(points, from + 1);
    }
}

/// The search from the start points on comes to what `outcome_from` says.
proof fn lemma_run_seek(resolver: Resolver, project: Project, fresh: u128, from: int, steps: nat)
    requires
        0 <= from <= resolver.start_points.len(),
        steps >= 2 * (resolver.start_points.len() - from) + 1,
    ensures
        run(resolver.seek(from, fresh).0, resolver.seek(from, fresh).1, project, fresh, steps)
            == Some(Ok::<Option<u128>, CliError>(outcome_from(resolver, project, fresh, from))),
    decreases resolver.start_points.len() - from,
{
    let points = resolver.start_points@;
    let index = first_start_point(points, from);
    lemma_first_start_point(points, from);
    lemma_first_existing_skips(points, project, from, index);
    let (at, asked) = resolver.seek(from, fresh);
    if index < points.len() {
        let name = points[index]->0;
        let find = BranchQuery::Find { name };
        assert(asked == Progress::Ask(find));
        assert(at.start_points == resolver.start_points && at.stage == Stage::StartPoint(
            index as usize,
        ));
        if project.branches.dom().contains(name) {
            let id = project.branches[name];
            assert(seq![id].len() == 1 && seq![id][0] == id);
            let created = Resolver { stage: Stage::CreateFrom(index as usize), ..at };
            let query = BranchQuery::Create { name: at.name, start_point: Some(id) };
            assert(at.after_reply(project.reply(find), fresh) == Ok::<
                (Resolver, Progress),
                CliError,
            >((created, Progress::Ask(query))));
            assert(run(created, Progress::Ask(query), project, fresh, (steps - 1) as nat) == run(
                created.finished(),
                Progress::Done(Some(project.next)),
                project,
                fresh,
                (steps - 2) as nat,
            ));
        } else {
            assert(Seq::<u128>::empty().len() == 0);
            assert(at.after_reply(project.reply(find), fresh) == Ok::<
                (Resolver, Progress),
                CliError,
            >(at.seek(index + 1, fresh)));
            assert(at.seek(index + 1, fresh).1 == resolver.seek(index + 1, fresh).1);
            lemma_run_seek(at, project, fresh, index + 1, (steps - 1) as nat);
            lemma_first_existing_skips(points, project, index, index + 1);
        }
    } else {
        if resolver.create && !resolver.dry_run {
            let creating = Resolver { stage: Stage::Create, ..resolver };
            assert(run(at, asked, project, fresh, steps) == run(
                creating.finished(),
                Progress::Done(Some(project.next)),
                project,
                fresh,
                (steps - 1) as nat,
            ));
        }
    }
}

/// The search finds the branch where it exists; else it creates the branch
/// from the first start point that exists; else it falls back: a branch is
/// created anew where that is asked for, a dry run shows a fresh UUID in
/// its place, and without leave to create there is no branch. Two questions
/// for each start point and three more are enough.
pub proof fn lemma_search_outcome(resolver: Resolver, project: Project, fresh: u128, steps: nat)
    requires
        resolver.stage == Stage::Name,
        steps >= 2 * resolver.start_points.len() + 3,
    ensures
        run(
            resolver,
            Progress::Ask(BranchQuery::Find { name: resolver.name }),
            project,
            fresh,
            steps,
        ) == Some(Ok::<Option<u128>, CliError>(outcome(resolver, project, fresh))),
{
    let query = BranchQuery::Find { name: resolver.name };
    if project.branches.dom().contains(resolver.name) {
        let id = project.branches[resolver.name];
        assert(seq![id].len() == 1 && seq![id][0] == id);
        assert(resolver.after_reply(project.reply(query), fresh) == Ok::<
            (Resolver, Progress),
            CliError,
        >((resolver.finished(), Progress::Done(Some(id)))));
        assert(run(
            resolver.finished(),
            Progress::Done(Some(id)),
            project,
            fresh,
            (steps - 1) as nat,
        ) == Some(Ok::<Option<u128>, CliError>(Some(id))));
    } else {
        assert(Seq::<u128>::empty().len() == 0);
        assert(resolver.after_reply(project.reply(query), fresh) == Ok::<
            (Resolver, Progress),
            CliError,
        >(resolver.seek(0, fresh)));
        lemma_run_seek(resolver, project, fresh, 0, (steps - 1) as nat);
    }
}

} // verus!
