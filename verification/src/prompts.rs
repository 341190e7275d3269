//! System prompts: a shared catalog of named instruction texts, looked up
//! by name, never by identity. A dangling name (a prompt renamed or
//! deleted since it was referenced) degrades to "no prompt" rather than
//! failing. An input word of the form `@name` selects the prompt of that
//! name, if one exists.

use vstd::prelude::*;

verus! {

/// A named, reusable instruction text.
#[derive(Debug)]
pub struct SystemPrompt {
    pub name: String,
    pub prompt: String,
}

/// Mathematical view of a `SystemPrompt`.
pub struct SystemPromptView {
    pub name: Seq<char>,
    pub prompt: Seq<char>,
}

impl View for SystemPrompt {
    type V = SystemPromptView;

    open spec fn view(&self) -> SystemPromptView {
        SystemPromptView { name: self.name@, prompt: self.prompt@ }
    }
}

impl Clone for SystemPrompt {
    fn clone(&self) -> (res: Self)
        ensures
            res@ == self@,
    {
        SystemPrompt { name: self.name.clone(), prompt: self.prompt.clone() }
    }
}

/// Views of a prompt catalog.
pub open spec fn prompt_views(ps: Seq<SystemPrompt>) -> Seq<SystemPromptView> {
    ps.map_values(|p: SystemPrompt| p@)
}

/// The first prompt with the given name, if any.
pub open spec fn find_prompt_spec(ps: Seq<SystemPromptView>, name: Seq<char>) -> Option<
    SystemPromptView,
>
    decreases ps.len(),
{
    if ps.len() == 0 {
        None
    } else if ps.first().name == name {
        Some(ps.first())
    } else {
        find_prompt_spec(ps.drop_first(), name)
    }
}

/// The first catalog prompt at position `k` with the given name is the one
/// the lookup finds.
proof fn lemma_find_prompt_at(ps: Seq<SystemPromptView>, name: Seq<char>, k: int)
    requires
        0 <= k < ps.len(),
        ps[k].name == name,
        forall|j: int| 0 <= j < k ==> ps[j].name != name,
    ensures
        find_prompt_spec(ps, name) == Some(ps[k]),
    decreases k,
{
    if k > 0 {
        lemma_find_prompt_at(ps.drop_first(), name, k - 1);
    }
}

/// Where no prompt carries the name, nothing is found.
proof fn lemma_find_prompt_absent(ps: Seq<SystemPromptView>, name: Seq<char>)
    requires
        forall|j: int| 0 <= j < ps.len() ==> ps[j].name != name,
    ensures
        find_prompt_spec(ps, name) is None,
    decreases ps.len(),
{
    if ps.len() > 0 {
        lemma_find_prompt_absent(ps.drop_first(), name);
    }
}

/// View of an optional prompt.
pub open spec fn opt_prompt_view(p: Option<SystemPrompt>) -> Option<SystemPromptView> {
    match p {
        Some(q) => Some(q@),
        None => None,
    }
}

/// Looks a prompt up by name. A name no prompt carries — a reference left
/// dangling by a rename or deletion — finds nothing, and the caller
/// proceeds without a prompt.
pub fn find_prompt(prompts: &Vec<SystemPrompt>, name: &String) -> (r: Option<SystemPrompt>)
    ensures
        opt_prompt_view(r) == find_prompt_spec(prompt_views(prompts@), name@),
{
    let mut i: usize = 0;
    while i < prompts.len()
        invariant
            0 <= i <= prompts.len(),
            forall|j: int| 0 <= j < i ==> prompt_views(prompts@)[j].name != name@,
        decreases prompts.len() - i,
    {
        if prompts[i].name == *name {
            proof {
                lemma_find_prompt_at(prompt_views(prompts@), name@, i as int);
            }
            return Some(prompts[i].clone());
        }
        i = i + 1;
    }
    proof {
        lemma_find_prompt_absent(prompt_views(prompts@), name@);
    }
    None
}

/// A stored prompt selection is only as good as the catalog: a name that no
/// longer resolves is dropped, a name that still resolves is kept.
pub fn validated_selection(prompts: &Vec<SystemPrompt>, selected: &Option<String>) -> (r: Option<
    String,
>)
    ensures
        match *selected {
            Some(ref name) => crate::types::opt_view(r) == (
            if find_prompt_spec(prompt_views(prompts@), name@) is Some {
                Some(name@)
            } else {
                None::<Seq<char>>
            }),
            None => r is None,
        },
{
    match selected {
        Some(name) => {
            match find_prompt(prompts, name) {
                Some(_) => Some(name.clone()),
                None => None,
            }
        },
        None => None,
    }
}

/// What `str::split_whitespace` yields for a text: its words, in order.
/// Which characters count as whitespace is settled by Unicode; the words
/// are a function of the text alone.
pub uninterp spec fn words_of(s: Seq<char>) -> Seq<Seq<char>>;

/// Relies on str::split_whitespace: splits a text into its words; a text
/// without content yields no words. The words are converted to owned
/// strings one for one.
#[verifier::external_body]
fn split_words(s: &str) -> (r: Vec<String>)
    ensures
        r@.map_values(|w: String| w@) == words_of(s@),
        s@.len() == 0 ==> r@.len() == 0,
{
    s.split_whitespace().map(|w| w.to_string()).collect()
}

/// What `str::trim_matches` with a non-alphanumeric predicate returns for a
/// text: the text with non-alphanumeric characters stripped from both ends.
/// Which characters count as alphanumeric is settled by Unicode; the result
/// is a function of the text alone, and a substring of it.
pub uninterp spec fn trimmed_alnum(s: Seq<char>) -> Seq<char>;

/// Relies on str::trim_matches and char::is_alphanumeric: strips leading
/// and trailing non-alphanumeric characters; the result is never longer
/// than the input.
#[verifier::external_body]
fn trim_to_alnum(s: &str) -> (r: String)
    ensures
        r@ == trimmed_alnum(s@),
        r@.len() <= s@.len(),
{
    s.trim_matches(|c: char| !c.is_alphanumeric()).to_string()
}

/// Relies on str::strip_prefix: returns the rest of the word exactly when
/// it starts with the mention mark '@'.
#[verifier::external_body]
fn strip_mention_mark(w: &str) -> (r: Option<String>)
    ensures
        match r {
            Some(rest) => w@.len() > 0 && w@.first() == '@' && rest@ == w@.drop_first(),
            None => !(w@.len() > 0 && w@.first() == '@'),
        },
{
    w.strip_prefix('@').map(|rest| rest.to_string())
}

/// Whether a word mentions a prompt of the catalog: it starts with '@' and
/// what remains, trimmed to its alphanumeric core, names a prompt.
pub open spec fn word_mention(w: Seq<char>, ps: Seq<SystemPromptView>) -> Option<SystemPromptView> {
    if w.len() > 0 && w.first() == '@' {
        find_prompt_spec(ps, trimmed_alnum(w.drop_first()))
    } else {
        None
    }
}

/// The prompt mentioned by the first resolving `@name` word, if any.
pub open spec fn mentioned_prompt_spec(
    words: Seq<Seq<char>>,
    ps: Seq<SystemPromptView>,
) -> Option<SystemPromptView>
    decreases words.len(),
{
    if words.len() == 0 {
        None
    } else if word_mention(words.first(), ps) is Some {
        word_mention(words.first(), ps)
    } else {
        mentioned_prompt_spec(words.drop_first(), ps)
    }
}

/// Scans the input for a word of the form `@name` and returns the first
/// prompt such a word resolves to; words whose name resolves to no prompt
/// are passed over.
pub fn extract_mentioned_prompt(input: &str, prompts: &Vec<SystemPrompt>) -> (r: Option<
    SystemPrompt,
>)
    ensures
        opt_prompt_view(r) == mentioned_prompt_spec(words_of(input@), prompt_views(prompts@)),
{
    let words = split_words(input);
    let ghost word_views = words@.map_values(|w: String| w@);
    let mut i: usize = 0;
    proof {
        assert(word_views.skip(0) =~= word_views);
    }
    while i < words.len()
        invariant
            0 <= i <= words.len(),
            word_views == words@.map_values(|w: String| w@),
            word_views == words_of(input@),
            mentioned_prompt_spec(word_views, prompt_views(prompts@)) == mentioned_prompt_spec(
                word_views.skip(i as int),
                prompt_views(prompts@),
            ),
        decreases words.len() - i,
    {
        proof {
            assert(word_views.skip(i as int).first() == word_views[i as int]);
            assert(word_views.skip(i as int).drop_first() =~= word_views.skip(i + 1));
        }
        match strip_mention_mark(words[i].as_str()) {
            Some(rest) => {
                let name = trim_to_alnum(rest.as_str());
                match find_prompt(prompts, &name) {
                    Some(p) => {
                        return Some(p);
                    },
                    None => {},
                }
            },
            None => {},
        }
        i = i + 1;
    }
    proof {
        assert(word_views.skip(words@.len() as int).len() == 0);
    }
    None
}

} // verus!
