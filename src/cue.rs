use vstd::prelude::*;

verus! {

/// What a cue does when it is triggered.
#[derive(Debug)]
pub enum CueAction {
    /// Play an audio file through the external player.
    Play { file: String, fade_in: Option<u32>, fade_out: Option<u32> },
    /// Declared for symmetry with `Play`; what it should do is left open.
    Stop { cue_id: u32, fade_out: Option<u32> },
}

/// Mathematical model of a `CueAction`: the file path is a character sequence.
pub enum ActionModel {
    Play { file: Seq<char>, fade_in: Option<u32>, fade_out: Option<u32> },
    Stop { cue_id: u32, fade_out: Option<u32> },
}

/// A user-defined, identified unit of action.
#[derive(Debug)]
pub struct Cue {
    pub id: u32,
    pub actions: CueAction,
}

/// Mathematical model of a `Cue`.
pub struct CueModel {
    pub id: u32,
    pub action: ActionModel,
}

impl View for CueAction {
    type V = ActionModel;

    open spec fn view(&self) -> ActionModel {
        match self {
            CueAction::Play { file, fade_in, fade_out } => ActionModel::Play {
                file: file@,
                fade_in: *fade_in,
                fade_out: *fade_out,
            },
            CueAction::Stop { cue_id, fade_out } => ActionModel::Stop {
                cue_id: *cue_id,
                fade_out: *fade_out,
            },
        }
    }
}

impl View for Cue {
    type V = CueModel;

    open spec fn view(&self) -> CueModel {
        CueModel { id: self.id, action: self.actions@ }
    }
}

impl CueAction {
    /// A copy of the action with the same model.
    pub fn duplicate(&self) -> (r: CueAction)
        ensures
            r@ == self@,
    {
        match self {
            CueAction::Play { file, fade_in, fade_out } => CueAction::Play {
                file: file.clone(),
                fade_in: *fade_in,
                fade_out: *fade_out,
            },
            CueAction::Stop { cue_id, fade_out } => CueAction::Stop {
                cue_id: *cue_id,
                fade_out: *fade_out,
            },
        }
    }
}

impl Cue {
    /// A cue that plays `file` with no fades.
    pub fn play(id: u32, file: String) -> (r: Cue)
        ensures
            r@ == (CueModel {
                id,
                action: ActionModel::Play { file: file@, fade_in: None, fade_out: None },
            }),
    {
        Cue { id, actions: CueAction::Play { file, fade_in: None, fade_out: None } }
    }

    /// A copy of the cue with the same model.
    pub fn duplicate(&self) -> (r: Cue)
        ensures
            r@ == self@,
    {
        Cue { id: self.id, actions: self.actions.duplicate() }
    }
}

} // verus!
