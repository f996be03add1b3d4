use vstd::prelude::*;

verus! {

/// The active event and challenge, remembered between invocations.
#[derive(Debug, Clone, Default)]
pub struct AppState {
    pub current_event_path: Option<String>,
    pub current_challenge_path: Option<String>,
}

impl AppState {
    /// The active event, if one is set and its directory still exists;
    /// `event_exists` says whether the directory of `current_event_path` exists.
    pub fn get_event(&self, event_exists: bool) -> (r: Option<String>)
        ensures
            match self.current_event_path {
                Some(p) => if event_exists {
                    r matches Some(q) && q@ == p@
                } else {
                    r is None
                },
                None => r is None,
            },
    {
        match &self.current_event_path {
            Some(p) => if event_exists {
                Some(p.clone())
            } else {
                None
            },
            None => None,
        }
    }

    /// Forgets the active event and challenge. Persisting the cleared state is the caller's part.
    pub fn clear(&mut self)
        ensures
            final(self).current_event_path is None,
            final(self).current_challenge_path is None,
    {
        self.current_event_path = None;
        self.current_challenge_path = None;
    }
}

} // verus!
