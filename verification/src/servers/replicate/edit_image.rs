//! The tool that edits an image along a prompt.

use vstd::prelude::*;
use crate::effect::{pair_value, Outcome, Pair, Step};
use crate::json::{Json, JsonView};
use crate::servers::replicate::errors::McpReplicateError;
use crate::servers::replicate::predict::{prediction_step, request_prediction};

verus! {

/// The number of steps where none is given.
pub const DEFAULT_STEPS: u32 = 28;

/// The guidance scale where none is given.
pub const DEFAULT_GUIDANCE: u32 = 25;

/// The input of the model: the image, the prompt, and the two settings,
/// each with its default where it is not given.
pub open spec fn edit_input(
    image: Seq<char>,
    prompt: Seq<char>,
    steps: Option<u32>,
    guidance: Option<u32>,
) -> JsonView {
    JsonView::Object(
        seq![
            ("control_image"@, JsonView::Text(image)),
            ("prompt"@, JsonView::Text(prompt)),
            (
                "steps"@,
                JsonView::Unsigned(
                    match steps {
                        Some(n) => n as nat,
                        None => DEFAULT_STEPS as nat,
                    },
                ),
            ),
            (
                "guidance"@,
                JsonView::Unsigned(
                    match guidance {
                        Some(n) => n as nat,
                        None => DEFAULT_GUIDANCE as nat,
                    },
                ),
            ),
        ],
    )
}

/// What `edit_image_tool` does, given the API token that the environment
/// holds, if any, and the answers so far: it starts a prediction with the
/// model that edits along edges.
pub open spec fn edit_image_step(
    step: Step<McpReplicateError>,
    token: Option<Seq<char>>,
    image: Seq<char>,
    prompt: Seq<char>,
    steps: Option<u32>,
    guidance: Option<u32>,
    replies: Seq<Outcome>,
) -> bool {
    prediction_step(
        step,
        token,
        "https://api.replicate.com/v1/models/black-forest-labs/flux-canny-pro/predictions"@,
        edit_input(image, prompt, steps, guidance),
        replies,
    )
}

/// Edits the image at the URL `image` along `prompt`: the next thing to
/// ask for, or the result, given the answers so far.
pub fn edit_image_tool(
    env: &Vec<Pair>,
    image: &str,
    prompt: &str,
    steps: Option<u32>,
    guidance: Option<u32>,
    replies: &Vec<Outcome>,
) -> (step: Step<McpReplicateError>)
    ensures
        edit_image_step(
            step,
            pair_value(env@, "REPLICATE_API_TOKEN"@),
            image@,
            prompt@,
            steps,
            guidance,
            replies@,
        ),
{
    let url = String::from_str(
        "https://api.replicate.com/v1/models/black-forest-labs/flux-canny-pro/predictions",
    );
    let step_count: u32 = match steps {
        Some(n) => n,
        None => DEFAULT_STEPS,
    };
    let scale: u32 = match guidance {
        Some(n) => n,
        None => DEFAULT_GUIDANCE,
    };
    let input = Json::object().with("control_image", Json::text(image)).with(
        "prompt",
        Json::text(prompt),
    ).with("steps", Json::Unsigned(step_count as u64)).with(
        "guidance",
        Json::Unsigned(scale as u64),
    );
    proof {
        assert(input@->Object_0 =~= edit_input(image@, prompt@, steps, guidance)->Object_0);
    }
    request_prediction(env, url, input, replies)
}

} // verus!
