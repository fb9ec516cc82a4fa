//! The catalog of plugins: the repositories of the publishing organization
//! that are public and tagged as plugins.

use vstd::prelude::*;
use crate::config::{CATALOG_URL, RATE_LIMITED, USER_AGENT};
use crate::plugin::{Plugin, PluginView};
use crate::text::{chars_of, same, string_of};

verus! {

/// A repository as the catalog lists it.
#[derive(Debug)]
pub struct Repository {
    pub name: Option<String>,
    pub description: Option<String>,
    /// The address of the repository in the catalog's interface.
    pub url: String,
    /// The address of the repository's page.
    pub html_url: String,
    pub private: bool,
    pub topics: Vec<String>,
}

/// A repository as plain text.
pub struct RepositoryView {
    pub name: Option<Seq<char>>,
    pub description: Option<Seq<char>>,
    pub url: Seq<char>,
    pub html_url: Seq<char>,
    pub private: bool,
    pub topics: Seq<Seq<char>>,
}

impl View for Repository {
    type V = RepositoryView;

    open spec fn view(&self) -> RepositoryView {
        RepositoryView {
            name: self.name.deep_view(),
            description: self.description.deep_view(),
            url: self.url@,
            html_url: self.html_url@,
            private: self.private,
            topics: self.topics.deep_view(),
        }
    }
}

impl DeepView for Repository {
    type V = RepositoryView;

    open spec fn deep_view(&self) -> RepositoryView {
        self@
    }
}

/// The entry point for the catalog.
pub struct Plugins;

/// The request that asks the catalog for its repositories.
#[derive(Debug)]
pub struct CatalogRequest {
    pub url: String,
    pub user_agent: String,
}

/// What to do with the catalog's response.
#[derive(Debug, PartialEq, Eq, Clone, Copy)]
pub enum CatalogVerdict {
    /// Decode the body as a list of repositories.
    Decode,
    /// Stop the whole run: the catalog refuses callers that ask too often.
    RateLimited,
}

/// Whether a repository is a plugin to offer: it is public and one of its
/// topics is `plugin`, letter for letter.
pub open spec fn is_plugin(r: RepositoryView) -> bool {
    !r.private && r.topics.contains("plugin"@)
}

/// The text, or the empty text where there is none.
pub open spec fn text_or_empty(t: Option<Seq<char>>) -> Seq<char> {
    match t {
        Some(s) => s,
        None => Seq::empty(),
    }
}

/// The plugin that a repository stands for.
pub open spec fn plugin_of(r: RepositoryView) -> PluginView {
    PluginView {
        name: text_or_empty(r.name),
        url: r.url,
        repo: r.html_url,
        description: text_or_empty(r.description),
    }
}

/// The plugins among `repositories`, in the order of the listing.
pub open spec fn plugins_of(repositories: Seq<RepositoryView>) -> Seq<PluginView>
    decreases repositories.len(),
{
    if repositories.len() == 0 {
        Seq::empty()
    } else if is_plugin(repositories[0]) {
        seq![plugin_of(repositories[0])] + plugins_of(repositories.skip(1))
    } else {
        plugins_of(repositories.skip(1))
    }
}

/// A copy of `t`, or the empty text where there is none.
fn owned_or_empty(t: &Option<String>) -> (out: String)
    ensures
        out@ == text_or_empty(t.deep_view()),
{
    match t {
        Some(s) => s.clone(),
        None => String::new(),
    }
}

/// Whether `topic` is among `topics`.
fn has_topic(topics: &Vec<String>, topic: &str) -> (yes: bool)
    ensures
        yes == topics.deep_view().contains(topic@),
{
    let wanted = chars_of(topic);
    let mut i: usize = 0;
    while i < topics.len()
        invariant
            i <= topics.len(),
            wanted@ == topic@,
            forall|j: int| 0 <= j < i ==> topics.deep_view()[j] != topic@,
        decreases topics.len() - i,
    {
        if same(&chars_of(topics[i].as_str()), &wanted) {
            assert(topics.deep_view()[i as int] == topic@);
            return true;
        }
        i += 1;
    }
    false
}

impl Plugins {
    /// The request to send for the catalog.
    pub fn catalog_request() -> (out: CatalogRequest)
        ensures
            out.url@ == CATALOG_URL@,
            out.user_agent@ == USER_AGENT@,
    {
        CatalogRequest {
            url: string_of(&chars_of(CATALOG_URL)),
            user_agent: string_of(&chars_of(USER_AGENT)),
        }
    }

    /// What to do with a response of status `status` to the catalog request:
    /// a refusal for asking too often stops the run, any other response is
    /// decoded.
    pub fn get_repositories(status: u16) -> (out: CatalogVerdict)
        ensures
            out == if status == RATE_LIMITED {
                CatalogVerdict::RateLimited
            } else {
                CatalogVerdict::Decode
            },
    {
        if status == RATE_LIMITED {
            CatalogVerdict::RateLimited
        } else {
            CatalogVerdict::Decode
        }
    }

    /// The plugins among the repositories that the catalog lists.
    pub fn get_plugins(repositories: &Vec<Repository>) -> (out: Vec<Plugin>)
        ensures
            out.deep_view() == plugins_of(repositories.deep_view()),
    {
        let mut out: Vec<Plugin> = Vec::new();
        let mut i: usize = 0;
        let ghost all = repositories.deep_view();
        proof {
            assert(all.skip(0) =~= all);
            assert(out.deep_view() + plugins_of(all) =~= plugins_of(all));
        }
        while i < repositories.len()
            invariant
                i <= repositories.len(),
                all == repositories.deep_view(),
                plugins_of(all) == out.deep_view() + plugins_of(all.skip(i as int)),
            decreases repositories.len() - i,
        {
            let ghost rest = all.skip(i as int);
            let ghost done = out.deep_view();
            let r = &repositories[i];
            proof {
                assert(rest.skip(1) =~= all.skip(i + 1));
                assert(rest[0] == r@);
            }
            if !r.private && has_topic(&r.topics, "plugin") {
                let plugin = Plugin {
                    name: owned_or_empty(&r.name),
                    description: owned_or_empty(&r.description),
                    url: r.url.clone(),
                    repo: r.html_url.clone(),
                };
                out.push(plugin);
                proof {
                    assert(out.deep_view() =~= done + seq![plugin_of(rest[0])]);
                }
            }
            i += 1;
        }
        proof {
            assert(plugins_of(all.skip(i as int)) =~= Seq::<PluginView>::empty());
        }
        out
    }
}

/// The plugins of a listing are those of its first part followed by those of
/// its second part.
pub proof fn lemma_plugins_of_parts(a: Seq<RepositoryView>, b: Seq<RepositoryView>)
    ensures
        plugins_of(a + b) == plugins_of(a) + plugins_of(b),
    decreases a.len(),
{
    if a.len() == 0 {
        assert(a + b =~= b);
        assert(plugins_of(a) + plugins_of(b) =~= plugins_of(b));
    } else {
        assert((a + b).skip(1) =~= a.skip(1) + b);
        assert((a + b)[0] == a[0]);
        lemma_plugins_of_parts(a.skip(1), b);
        if is_plugin(a[0]) {
            assert(plugins_of(a + b) =~= plugins_of(a) + plugins_of(b));
        }
    }
}

/// A repository that is no plugin to offer is left out: the plugins of a
/// listing that holds it are those of the listing without it.
pub proof fn law_excluded_repository_changes_nothing(
    before: Seq<RepositoryView>,
    r: RepositoryView,
    after: Seq<RepositoryView>,
)
    requires
        !is_plugin(r),
    ensures
        plugins_of(before + seq![r] + after) == plugins_of(before + after),
{
    lemma_plugins_of_parts(before + seq![r], after);
    lemma_plugins_of_parts(before, seq![r]);
    lemma_plugins_of_parts(before, after);
    assert(seq![r].skip(1) =~= Seq::<RepositoryView>::empty());
    assert(plugins_of(seq![r].skip(1)) =~= Seq::<PluginView>::empty());
    assert(plugins_of(seq![r]) =~= Seq::<PluginView>::empty());
    assert(plugins_of(before) + plugins_of(seq![r]) =~= plugins_of(before));
}

/// A repository without the topic `plugin` is left out, public or not.
pub proof fn law_untagged_repository_is_excluded(
    before: Seq<RepositoryView>,
    r: RepositoryView,
    after: Seq<RepositoryView>,
)
    requires
        !r.topics.contains("plugin"@),
    ensures
        plugins_of(before + seq![r] + after) == plugins_of(before + after),
{
    law_excluded_repository_changes_nothing(before, r, after);
}

/// A private repository is left out, whatever its topics.
pub proof fn law_private_repository_is_excluded(
    before: Seq<RepositoryView>,
    r: RepositoryView,
    after: Seq<RepositoryView>,
)
    requires
        r.private,
    ensures
        plugins_of(before + seq![r] + after) == plugins_of(before + after),
{
    law_excluded_repository_changes_nothing(before, r, after);
}

} // verus!
