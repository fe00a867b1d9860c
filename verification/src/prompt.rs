use vstd::prelude::*;

verus! {

/// What the interpreter is asking for when it pauses for console input.
#[derive(Clone, Debug, PartialEq, Eq)]
pub struct PromptInfo {
    /// The prompt text, as the interpreter presented it.
    pub prompt: String,
    /// The previous input did not parse fully; the interpreter waits for more.
    pub incomplete: bool,
    /// The prompt is not the default one: the interpreter is not at the top
    /// of its loop, waiting for the next command.
    pub user_request: bool,
}

/// A classified prompt with its text as a sequence of characters.
pub ghost struct PromptView {
    pub prompt: Seq<char>,
    pub incomplete: bool,
    pub user_request: bool,
}

impl View for PromptInfo {
    type V = PromptView;

    open spec fn view(&self) -> PromptView {
        PromptView {
            prompt: self.prompt@,
            incomplete: self.incomplete,
            user_request: self.user_request,
        }
    }
}

/// The classification of `prompt` against the two configured prompts.
pub open spec fn spec_prompt_info(
    prompt: Seq<char>,
    continue_prompt: Seq<char>,
    default_prompt: Seq<char>,
) -> PromptView {
    PromptView {
        prompt,
        incomplete: PromptInfo::spec_incomplete(prompt, continue_prompt),
        user_request: PromptInfo::spec_user_request(prompt, default_prompt),
    }
}

impl PromptInfo {
    /// The prompt is the configured continuation prompt.
    pub open spec fn spec_incomplete(prompt: Seq<char>, continue_prompt: Seq<char>) -> bool {
        prompt == continue_prompt
    }

    /// The prompt differs from the configured default prompt.
    pub open spec fn spec_user_request(prompt: Seq<char>, default_prompt: Seq<char>) -> bool {
        prompt != default_prompt
    }
}

/// Classifies a prompt by exact comparison with the interpreter's configured
/// continuation and default prompts. The two comparisons are made each for
/// itself: a prompt that is the continuation prompt and not the default one
/// has both flags set.
pub fn prompt_info(prompt: String, continue_prompt: &String, default_prompt: &String) -> (info:
    PromptInfo)
    ensures
        info@ == spec_prompt_info(prompt@, continue_prompt@, default_prompt@),
{
    let incomplete = prompt == *continue_prompt;
    let user_request = prompt != *default_prompt;
    PromptInfo { prompt, incomplete, user_request }
}

} // verus!
