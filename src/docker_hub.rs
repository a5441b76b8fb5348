use vstd::prelude::*;
use vstd::string::StringExecFns;

use crate::contracts::{DockerHubSourceConfig, VersionCandidate, VersionSourceKind};
use crate::errors::{VersionError, VersionResult};
use crate::text::{less_than, text_less};

verus! {

/// What `regex` decides for `pattern` on `text`: `None` when the pattern does
/// not compile, else whether it matches anywhere in the text.
pub uninterp spec fn regex_verdict(pattern: Seq<char>, text: Seq<char>) -> Option<bool>;

/// Relies on regex::Regex::new and regex::Regex::is_match: the pattern is
/// compiled, then searched for anywhere in `text`.
#[verifier::external_body]
fn regex_test(pattern: &str, text: &str) -> (r: Option<bool>)
    ensures
        r == regex_verdict(pattern@, text@),
{
    match regex::Regex::new(pattern) {
        Ok(re) => Some(re.is_match(text)),
        Err(_) => None,
    }
}

/// One tag of a registry listing.
#[derive(Debug, Clone)]
pub struct DockerHubTag {
    pub name: String,
    pub last_updated: String,
    pub digest: Option<String>,
}

/// Finds the newest tag of a repository on a container registry.
#[derive(Debug, Clone)]
pub struct DockerHubProvider {
    pub config: DockerHubSourceConfig,
}

/// Whether a tag named `name` survives the filter of `config`: every tag does
/// when no pattern is set (or the pattern does not compile), else only those
/// the pattern matches.
pub open spec fn tag_passes(config: DockerHubSourceConfig, name: Seq<char>) -> bool {
    match config.tag_regex {
        None => true,
        Some(p) => match regex_verdict(p@, name) {
            None => true,
            Some(b) => b,
        },
    }
}

/// `i` is the first of the passing tags with the greatest last-modified text.
pub open spec fn is_newest_tag(config: DockerHubSourceConfig, tags: Seq<DockerHubTag>, i: int) -> bool {
    &&& 0 <= i < tags.len()
    &&& tag_passes(config, tags[i].name@)
    &&& forall|j: int| 0 <= j < tags.len() && tag_passes(config, tags[j].name@)
        ==> !text_less(tags[i].last_updated@, tags[j].last_updated@)
    &&& forall|j: int| 0 <= j < i && tag_passes(config, tags[j].name@)
        ==> text_less(tags[j].last_updated@, tags[i].last_updated@)
}

/// The listing address for a namespace and repository.
pub open spec fn tags_url(namespace: Seq<char>, repository: Seq<char>) -> Seq<char> {
    "https://hub.docker.com/v2/repositories/"@ + namespace + "/"@ + repository + "/tags"@
}

/// `a` does not sort before `b`, and `b` does not sort before `a`, only when equal.
proof fn lemma_text_less_total(a: Seq<char>, b: Seq<char>)
    ensures
        !text_less(a, b) && !text_less(b, a) ==> a == b,
        !(text_less(a, b) && text_less(b, a)),
    decreases a.len(),
{
    if a.len() > 0 && b.len() > 0 && a[0] == b[0] {
        lemma_text_less_total(a.drop_first(), b.drop_first());
        if !text_less(a, b) && !text_less(b, a) {
            assert(a =~= seq![a[0]] + a.drop_first());
            assert(b =~= seq![b[0]] + b.drop_first());
        }
    } else if a.len() > 0 && b.len() > 0 {
        assert(a[0] != b[0]);
    } else if a.len() == 0 && b.len() == 0 {
        assert(a =~= b);
    }
}

/// `text_less` is transitive.
proof fn lemma_text_less_trans(a: Seq<char>, b: Seq<char>, c: Seq<char>)
    requires
        text_less(a, b),
        text_less(b, c),
    ensures
        text_less(a, c),
    decreases a.len(),
{
    if a.len() > 0 && b.len() > 0 && c.len() > 0 && a[0] == b[0] && b[0] == c[0] {
        lemma_text_less_trans(a.drop_first(), b.drop_first(), c.drop_first());
    }
}

impl DockerHubProvider {
    pub fn new(config: DockerHubSourceConfig) -> (r: DockerHubProvider)
        ensures
            r.config == config,
    {
        DockerHubProvider { config }
    }

    /// The address of the tag listing.
    pub fn build_api_url(&self) -> (r: String)
        ensures
            r@ == tags_url(self.config.namespace@, self.config.repository@),
    {
        proof {
            reveal_strlit("https://hub.docker.com/v2/repositories/");
            reveal_strlit("/");
            reveal_strlit("/tags");
        }
        let mut s = String::from_str("https://hub.docker.com/v2/repositories/");
        s.append(self.config.namespace.as_str());
        s.append("/");
        s.append(self.config.repository.as_str());
        s.append("/tags");
        s
    }

    /// Whether a tag named `name` survives the configured filter.
    pub fn tag_passes_filter(&self, name: &str) -> (r: bool)
        ensures
            r == tag_passes(self.config, name@),
    {
        match &self.config.tag_regex {
            None => true,
            Some(p) => match regex_test(p.as_str(), name) {
                None => true,
                Some(b) => b,
            },
        }
    }

    /// The newest of the tags that survive the filter, by last-modified text
    /// (the first of equals); none when no tag survives.
    pub fn filter_and_sort_tags(&self, tags: Vec<DockerHubTag>) -> (r: Option<DockerHubTag>)
        ensures
            r is None <==> forall|j: int| 0 <= j < tags@.len() ==> !tag_passes(self.config, #[trigger] tags@[j].name@),
            r is Some ==> exists|i: int| is_newest_tag(self.config, tags@, i) && tags@[i] == r->0,
    {
        let mut tags = tags;
        let ghost orig = tags@;
        let mut best: Option<usize> = None;
        let mut i: usize = 0;
        while i < tags.len()
            invariant
                tags@ == orig,
                i <= tags.len(),
                best is None ==> forall|j: int| 0 <= j < i ==> !tag_passes(self.config, #[trigger] orig[j].name@),
                best is Some ==> {
                    let b = best->0 as int;
                    &&& 0 <= b < i
                    &&& tag_passes(self.config, orig[b].name@)
                    &&& forall|j: int| 0 <= j < i && tag_passes(self.config, orig[j].name@)
                        ==> !text_less(orig[b].last_updated@, #[trigger] orig[j].last_updated@)
                    &&& forall|j: int| 0 <= j < b && tag_passes(self.config, orig[j].name@)
                        ==> text_less(#[trigger] orig[j].last_updated@, orig[b].last_updated@)
                },
            decreases tags.len() - i,
        {
            if self.tag_passes_filter(tags[i].name.as_str()) {
                match best {
                    None => {
                        proof { lemma_text_less_total(orig[i as int].last_updated@, orig[i as int].last_updated@); }
                        best = Some(i);
                    },
                    Some(b) => {
                        proof { lemma_text_less_total(orig[i as int].last_updated@, orig[i as int].last_updated@); }
                        if less_than(tags[b].last_updated.as_str(), tags[i].last_updated.as_str()) {
                            proof {
                                assert forall|j: int| 0 <= j < i && tag_passes(self.config, orig[j].name@)
                                    implies text_less(#[trigger] orig[j].last_updated@, orig[i as int].last_updated@) by {
                                    lemma_text_less_total(orig[b as int].last_updated@, orig[j].last_updated@);
                                    if orig[j].last_updated@ != orig[b as int].last_updated@ {
                                        lemma_text_less_trans(orig[j].last_updated@, orig[b as int].last_updated@, orig[i as int].last_updated@);
                                    }
                                }
                                assert forall|j: int| 0 <= j < i + 1 && tag_passes(self.config, orig[j].name@)
                                    implies !text_less(orig[i as int].last_updated@, #[trigger] orig[j].last_updated@) by {
                                    lemma_text_less_total(orig[i as int].last_updated@, orig[j].last_updated@);
                                }
                            }
                            best = Some(i);
                        }
                    },
                }
            }
            i = i + 1;
        }
        match best {
            None => None,
            Some(b) => {
                let t = tags.remove(b);
                Some(t)
            },
        }
    }

    /// The candidate for the newest surviving tag; a parse failure when none survives.
    pub fn candidate_from_tags(&self, tags: Vec<DockerHubTag>) -> (r: VersionResult<VersionCandidate>)
        ensures
            r is Err <==> forall|j: int| 0 <= j < tags@.len() ==> !tag_passes(self.config, #[trigger] tags@[j].name@),
            r is Err ==> r->Err_0 is Parse,
            r is Ok ==> exists|i: int| {
                &&& is_newest_tag(self.config, tags@, i)
                &&& r->Ok_0.source == VersionSourceKind::DockerHub
                &&& r->Ok_0.version == tags@[i].name
                &&& r->Ok_0.digest == tags@[i].digest
                &&& r->Ok_0.release_notes is None
                &&& r->Ok_0.published_at == Some(tags@[i].last_updated)
                &&& r->Ok_0.raw_reference is Some
                &&& r->Ok_0.raw_reference->0@ == self.config.namespace@ + "/"@ + self.config.repository@ + ":"@ + tags@[i].name@
            },
    {
        match self.filter_and_sort_tags(tags) {
            None => {
                Err(VersionError::Parse(String::from_str("No matching tags found")))
            },
            Some(tag) => {
                proof {
                    reveal_strlit("/");
                    reveal_strlit(":");
                }
                let mut raw = String::from_str(self.config.namespace.as_str());
                raw.append("/");
                raw.append(self.config.repository.as_str());
                raw.append(":");
                raw.append(tag.name.as_str());
                Ok(VersionCandidate {
                    source: VersionSourceKind::DockerHub,
                    version: tag.name,
                    digest: tag.digest,
                    release_notes: None,
                    published_at: Some(tag.last_updated),
                    raw_reference: Some(raw),
                })
            },
        }
    }
}

} // verus!
