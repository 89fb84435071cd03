//! The pages that show the results of a run: one URL for each benchmark.

use vstd::prelude::*;
use vstd::string::StringExecFns;
use vstd::string::StringSliceAdditionalSpecFns;
use vstd::utf8::encode_utf8;
use crate::error::CliError;
use crate::resource::uuid_text;
use crate::resource::ResourceId;
use crate::text::same_text;
use crate::text::text_of;
use crate::web::parse_url;
use crate::web::parsed_url;
use crate::web::set_url_path;
use crate::web::set_url_query;
use crate::web::url_with_path;
use crate::web::url_with_query;
use crate::web::TEXT_LIMIT;

verus! {

/// Who may see a project.
#[derive(Debug, Clone, Copy, PartialEq, Eq, Structural)]
pub enum Visibility {
    Public,
    Private,
}

/// What the URLs of the benchmarks of one report have in common.
#[derive(Debug, Clone, PartialEq, Eq)]
pub struct BenchmarkUrl {
    /// The serialization of the URL of the console.
    pub endpoint: String,
    pub project_visibility: Visibility,
    pub project_slug: String,
    pub branch: u128,
    pub testbed: u128,
}

/// A benchmark of a report: its name and UUID, and the slug of the metric
/// kind that was measured.
#[derive(Debug, Clone, PartialEq, Eq)]
pub struct BenchmarkQuery {
    pub name: String,
    pub metric_kind: String,
    pub benchmark: u128,
}

/// The URL of one benchmark.
#[derive(Debug, Clone, PartialEq, Eq)]
pub struct UrlEntry {
    pub name: String,
    pub url: String,
}

/// The URLs of the benchmarks of a report by their names. No name occurs
/// twice.
#[derive(Debug, Clone, PartialEq, Eq)]
pub struct BenchmarkUrls(pub Vec<UrlEntry>);

/// The path of the page of a project: a public project has its page in the
/// open, a private one in the console.
pub open spec fn perf_path(visibility: Visibility, slug: Seq<char>) -> Seq<char> {
    match visibility {
        Visibility::Public => "/perf/"@ + slug,
        Visibility::Private => "/console/projects/"@ + slug + "/perf"@,
    }
}

/// The query that selects the results of one benchmark: those of the metric
/// kind on the branch and the testbed of the report.
pub open spec fn perf_query(metric_kind: Seq<char>, branch: u128, testbed: u128, benchmark: u128)
    -> Seq<char> {
    "metric_kind="@ + metric_kind + "&branches="@ + uuid_text(branch) + "&testbeds="@ + uuid_text(
        testbed,
    ) + "&benchmarks="@ + uuid_text(benchmark)
}

/// The text takes no more than `TEXT_LIMIT` bytes.
pub open spec fn short(text: Seq<char>) -> bool {
    encode_utf8(text).len() <= TEXT_LIMIT
}

/// Tells whether the text takes no more than `TEXT_LIMIT` bytes.
pub fn is_short(text: &str) -> (ok: bool)
    ensures
        ok == short(text@),
{
    broadcast use vstd::slice::group_slice_axioms;

    text.as_bytes().len() <= TEXT_LIMIT
}

/// No name occurs twice.
pub open spec fn names_unique(entries: Seq<UrlEntry>) -> bool {
    forall|i: int, j: int|
        0 <= i < j < entries.len() ==> (#[trigger] entries[i]).name@ != (#[trigger] entries[j]).name@
}

/// The URL under a name: that of the last entry with the name.
pub open spec fn lookup(entries: Seq<UrlEntry>, name: Seq<char>) -> Option<Seq<char>>
    decreases entries.len(),
{
    if entries.len() == 0 {
        None
    } else if entries.last().name@ == name {
        Some(entries.last().url@)
    } else {
        lookup(entries.drop_last(), name)
    }
}

impl BenchmarkUrl {
    /// The URL of the page that shows what `query` selects: the endpoint
    /// with the path of the project and the query. There is none where the
    /// endpoint is no URL, or where a text on the way is longer than
    /// `TEXT_LIMIT`.
    pub open spec fn url_for(self, query: Seq<char>) -> Option<Seq<char>> {
        let path = perf_path(self.project_visibility, self.project_slug@);
        if !short(self.endpoint@) || !short(path) || !short(query) {
            None
        } else {
            match url_with_path(self.endpoint@, path) {
                Some(with_path) => if short(with_path) {
                    url_with_query(with_path, query)
                } else {
                    None
                },
                None => None,
            }
        }
    }

    /// Reads the endpoint and keeps what the URLs have in common.
    pub fn new(
        endpoint: &str,
        project_visibility: Visibility,
        project_slug: String,
        branch: u128,
        testbed: u128,
    ) -> (made: Result<BenchmarkUrl, CliError>)
        ensures
            match made {
                Ok(url) => {
                    &&& parsed_url(endpoint@) == Some(url.endpoint@)
                    &&& url.project_visibility == project_visibility
                    &&& url.project_slug == project_slug
                    &&& url.branch == branch
                    &&& url.testbed == testbed
                },
                Err(e) => parsed_url(endpoint@) is None && e is Url,
            },
    {
        match parse_url(endpoint) {
            Ok(url) => Ok(
                BenchmarkUrl { endpoint: url, project_visibility, project_slug, branch, testbed },
            ),
            Err(e) => Err(CliError::Url(e)),
        }
    }

    /// The path of the page of the project.
    pub fn path(&self) -> (path: String)
        ensures
            path@ == perf_path(self.project_visibility, self.project_slug@),
    {
        match self.project_visibility {
            Visibility::Public => "/perf/".to_owned().concat(self.project_slug.as_str()),
            Visibility::Private => "/console/projects/".to_owned().concat(
                self.project_slug.as_str(),
            ).concat("/perf"),
        }
    }

    /// The query that selects the results of a benchmark for a metric kind.
    pub open spec fn query_for(self, metric_kind: Seq<char>, benchmark: u128) -> Seq<char> {
        perf_query(metric_kind, self.branch, self.testbed, benchmark)
    }

    /// The query that selects the results of a benchmark for a metric kind.
    pub fn query(&self, metric_kind: &str, benchmark: u128) -> (query: String)
        ensures
            query@ == self.query_for(metric_kind@, benchmark),
    {
        let branch: String = ResourceId::Uuid(self.branch).to_text();
        let testbed: String = ResourceId::Uuid(self.testbed).to_text();
        let benchmark: String = ResourceId::Uuid(benchmark).to_text();
        "metric_kind=".to_owned().concat(metric_kind).concat("&branches=").concat(
            branch.as_str(),
        ).concat("&testbeds=").concat(testbed.as_str()).concat("&benchmarks=").concat(
            benchmark.as_str(),
        )
    }

    /// The URL of the page that shows the results of a benchmark for a
    /// metric kind.
    pub fn to_url(&self, metric_kind: &str, benchmark: u128) -> (url: Option<String>)
        ensures
            text_of(url) == self.url_for(self.query_for(metric_kind@, benchmark)),
    {
        let path: String = self.path();
        let text: String = self.query(metric_kind, benchmark);
        let query: &str = text.as_str();
        if !is_short(self.endpoint.as_str()) || !is_short(path.as_str()) || !is_short(query) {
            return None;
        }
        let with_path: String = match set_url_path(self.endpoint.as_str(), path.as_str()) {
            Some(u) => u,
            None => {
                return None;
            },
        };
        if !is_short(with_path.as_str()) {
            return None;
        }
        set_url_query(with_path.as_str(), query)
    }
}

/// The URLs of the benchmarks by name, as the entries give them one after
/// the other: a later benchmark of a name takes the place of an earlier
/// one, and a benchmark without a URL leaves the table as it is.
pub open spec fn expected_url(url: BenchmarkUrl, benchmarks: Seq<BenchmarkQuery>, name: Seq<char>)
    -> Option<Seq<char>>
    decreases benchmarks.len(),
{
    if benchmarks.len() == 0 {
        None
    } else {
        let last = benchmarks.last();
        let page = url.url_for(url.query_for(last.metric_kind@, last.benchmark));
        if last.name@ == name && page is Some {
            page
        } else {
            expected_url(url, benchmarks.drop_last(), name)
        }
    }
}

/// Where no entry has the name, nothing is found under it.
proof fn lemma_lookup_absent(entries: Seq<UrlEntry>, name: Seq<char>)
    requires
        forall|i: int| 0 <= i < entries.len() ==> (#[trigger] entries[i]).name@ != name,
    ensures
        lookup(entries, name) is None,
    decreases entries.len(),
{
    if entries.len() > 0 {
        let front = entries.drop_last();
        assert forall|i: int| 0 <= i < front.len() implies (#[trigger] front[i]).name@ != name by {
            assert(front[i] == entries[i]);
        }
        lemma_lookup_absent(front, name);
        assert(entries[entries.len() - 1].name@ != name);
    }
}

/// Where no name occurs twice, each entry is found under its name.
proof fn lemma_lookup_entry(entries: Seq<UrlEntry>, index: int)
    requires
        names_unique(entries),
        0 <= index < entries.len(),
    ensures
        lookup(entries, entries[index].name@) == Some(entries[index].url@),
    decreases entries.len(),
{
    if index < entries.len() - 1 {
        let front = entries.drop_last();
        assert(entries[index].name@ != entries[entries.len() - 1].name@);
        assert forall|i: int, j: int| 0 <= i < j < front.len() implies (#[trigger] front[i]).name@ != (
        #[trigger] front[j]).name@ by {
            assert(front[i] == entries[i] && front[j] == entries[j]);
        }
        assert(front[index] == entries[index]);
        lemma_lookup_entry(front, index);
    }
}

/// Entries that differ in one URL only give the same URL under every other
/// name.
proof fn lemma_lookup_elsewhere(
    before: Seq<UrlEntry>,
    after: Seq<UrlEntry>,
    index: int,
    name: Seq<char>,
)
    requires
        before.len() == after.len(),
        0 <= index < before.len(),
        forall|i: int| 0 <= i < before.len() ==> (#[trigger] before[i]).name@ == after[i].name@,
        forall|i: int| 0 <= i < before.len() && i != index ==> (#[trigger] before[i]).url@ == after[i].url@,
        name != before[index].name@,
    ensures
        lookup(after, name) == lookup(before, name),
    decreases before.len(),
{
    let n = before.len() - 1;
    assert(before[n].name@ == after[n].name@);
    if before[n].name@ == name {
        assert(n != index);
        assert(before[n].url@ == after[n].url@);
    } else if index < n {
        let b = before.drop_last();
        let a = after.drop_last();
        assert forall|i: int| 0 <= i < b.len() implies (#[trigger] b[i]).name@ == a[i].name@ by {
            assert(b[i] == before[i] && a[i] == after[i]);
        }
        assert forall|i: int| 0 <= i < b.len() && i != index implies (#[trigger] b[i]).url@
            == a[i].url@ by {
            assert(b[i] == before[i] && a[i] == after[i]);
        }
        assert(b[index] == before[index]);
        lemma_lookup_elsewhere(b, a, index, name);
    } else {
        let b = before.drop_last();
        let a = after.drop_last();
        lemma_lookup_same(b, a, name);
    }
}

/// Entries with the same names and URLs give the same URL under every
/// name.
proof fn lemma_lookup_same(before: Seq<UrlEntry>, after: Seq<UrlEntry>, name: Seq<char>)
    requires
        before.len() == after.len(),
        forall|i: int|
            0 <= i < before.len() ==> (#[trigger] before[i]).name@ == after[i].name@
                && before[i].url@ == after[i].url@,
    ensures
        lookup(after, name) == lookup(before, name),
    decreases before.len(),
{
    if before.len() > 0 {
        let n = before.len() - 1;
        assert(before[n].name@ == after[n].name@ && before[n].url@ == after[n].url@);
        let b = before.drop_last();
        let a = after.drop_last();
        assert forall|i: int| 0 <= i < b.len() implies (#[trigger] b[i]).name@ == a[i].name@
            && b[i].url@ == a[i].url@ by {
            assert(b[i] == before[i] && a[i] == after[i]);
        }
        lemma_lookup_same(b, a, name);
    }
}

impl BenchmarkUrls {
    /// Puts a URL under a name, in place of the one that was there.
    pub fn insert(&mut self, name: String, url: String)
        requires
            names_unique(old(self).0@),
        ensures
            names_unique(final(self).0@),
            forall|other: Seq<char>|
                #[trigger] lookup(final(self).0@, other) == if other == name@ {
                    Some(url@)
                } else {
                    lookup(old(self).0@, other)
                },
    {
        let mut i: usize = 0;
        while i < self.0.len()
            invariant
                i <= self.0.len(),
                self.0@ == old(self).0@,
                names_unique(self.0@),
                forall|j: int| 0 <= j < i ==> (#[trigger] self.0@[j]).name@ != name@,
            decreases self.0.len() - i,
        {
            if self.0[i].name == name {
                let ghost before = self.0@;
                self.0.set(i, UrlEntry { name, url });
                proof {
                    let after = self.0@;
                    assert(before[i as int].name@ == name@);
                    assert forall|k: int| 0 <= k < before.len() implies (#[trigger] before[k]).name@
                        == after[k].name@ by {}
                    assert forall|a: int, b: int| 0 <= a < b < after.len() implies (
                    #[trigger] after[a]).name@ != (#[trigger] after[b]).name@ by {
                        assert(before[a].name@ == after[a].name@ && before[b].name@
                            == after[b].name@);
                    }
                    lemma_lookup_entry(after, i as int);
                    assert forall|other: Seq<char>| #[trigger]
                        lookup(after, other) == if other == name@ {
                            Some(url@)
                        } else {
                            lookup(before, other)
                        } by {
                        if other != name@ {
                            lemma_lookup_elsewhere(before, after, i as int, other);
                        }
                    }
                }
                return ;
            }
            i += 1;
        }
        let ghost before = self.0@;
        self.0.push(UrlEntry { name, url });
        proof {
            assert(self.0@.drop_last() =~= before);
        }
    }

    /// The URLs of the benchmarks of a report.
    pub fn new(url: &BenchmarkUrl, benchmarks: &Vec<BenchmarkQuery>) -> (urls: BenchmarkUrls)
        ensures
            names_unique(urls.0@),
            forall|name: Seq<char>| #[trigger]
                lookup(urls.0@, name) == expected_url(*url, benchmarks@, name),
    {
        let mut urls = BenchmarkUrls(Vec::new());
        let mut i: usize = 0;
        while i < benchmarks.len()
            invariant
                i <= benchmarks.len(),
                names_unique(urls.0@),
                forall|name: Seq<char>| #[trigger]
                    lookup(urls.0@, name) == expected_url(*url, benchmarks@.take(i as int), name),
            decreases benchmarks.len() - i,
        {
            let benchmark = &benchmarks[i];
            proof {
                assert(benchmarks@.take(i + 1).drop_last() =~= benchmarks@.take(i as int));
            }
            match url.to_url(benchmark.metric_kind.as_str(), benchmark.benchmark) {
                Some(page) => {
                    urls.insert(benchmark.name.clone(), page);
                },
                None => {},
            }
            i += 1;
        }
        assert(benchmarks@.take(benchmarks.len() as int) =~= benchmarks@);
        urls
    }

    /// The URL under a name.
    pub fn get(&self, name: &str) -> (url: Option<&String>)
        requires
            names_unique(self.0@),
        ensures
            match url {
                Some(u) => lookup(self.0@, name@) == Some(u@),
                None => lookup(self.0@, name@) is None,
            },
    {
        let mut i: usize = 0;
        while i < self.0.len()
            invariant
                i <= self.0.len(),
                names_unique(self.0@),
                forall|j: int| 0 <= j < i ==> (#[trigger] self.0@[j]).name@ != name@,
            decreases self.0.len() - i,
        {
            if same_text(self.0[i].name.as_str(), name) {
                proof {
                    lemma_lookup_entry(self.0@, i as int);
                }
                return Some(&self.0[i].url);
            }
            i += 1;
        }
        proof {
            lemma_lookup_absent(self.0@, name@);
        }
        None
    }
}

} // verus!
