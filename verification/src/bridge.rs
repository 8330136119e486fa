//! The bridge to the rendering surface: which surface scripts are sent into,
//! and what a dispatch into it reports.
//!
//! The bridge never touches a surface itself. The host enumerates the
//! surfaces that exist and runs the scripts; the bridge picks among what was
//! enumerated, remembers its pick, and turns the host's reports into results.
//! `H` is the host's handle to a surface.

use vstd::prelude::*;

verus! {

/// The label of the surface that is taken before any other.
pub const MAIN_SURFACE: &'static str = "main";

/// The error of a dispatch for which no surface could be found.
pub const NO_WINDOW: &'static str = "No WebView window available";

/// What precedes the cause in the error of a dispatch that the surface rejected.
pub const EVAL_FAILED_PREFIX: &'static str = "JavaScript execution failed: ";

/// Whether `i` is the place of the first surface labelled `main` among `surfaces`.
pub open spec fn is_first_main<H>(surfaces: Seq<(String, H)>, i: int) -> bool {
    &&& 0 <= i < surfaces.len()
    &&& surfaces[i].0@ == MAIN_SURFACE@
    &&& forall|j: int| 0 <= j < i ==> (#[trigger] surfaces[j]).0@ != MAIN_SURFACE@
}

/// The place of the surface to use among `surfaces`, which are in the order
/// in which the host enumerated them: the first one labelled `main`; where
/// there is none, the first one of all; `None` where no surface exists.
pub open spec fn preferred_surface<H>(surfaces: Seq<(String, H)>) -> Option<int> {
    if exists|i: int| is_first_main(surfaces, i) {
        Some(choose|i: int| is_first_main(surfaces, i))
    } else if surfaces.len() > 0 {
        Some(0)
    } else {
        None
    }
}

/// The handle that a bridge holds after it was offered `surfaces`: the one it
/// held before, where it held one, and else the preferred one among those offered.
pub open spec fn resolved<H>(cached: Option<H>, surfaces: Seq<(String, H)>) -> Option<H> {
    if cached is Some {
        cached
    } else {
        match preferred_surface(surfaces) {
            Some(i) => Some(surfaces[i].1),
            None => None,
        }
    }
}

/// The first pick is kept: once a bridge holds a handle, nothing that it is
/// offered later changes it, and while it is offered no surface it holds none
/// and may be asked again.
pub proof fn lemma_first_pick_is_kept<H>(
    cached: Option<H>,
    first: Seq<(String, H)>,
    later: Seq<(String, H)>,
)
    ensures
        resolved(cached, first) is Some ==> resolved(resolved(cached, first), later) == resolved(
            cached,
            first,
        ),
        first.len() == 0 ==> resolved(cached, first) == cached,
        cached is None && first.len() > 0 ==> resolved(cached, first) is Some,
{
    if first.len() == 0 {
        assert forall|i: int| !is_first_main(first, i) by {}
    }
}

/// The result of a dispatch, given what the host reports of it: `None` where
/// no surface was there to run the script, and else what the surface said
/// when the script was handed to it.
pub open spec fn dispatch_result(attempt: Option<Result<(), String>>) -> Result<(), Seq<char>> {
    match attempt {
        None => Err(NO_WINDOW@),
        Some(Err(cause)) => Err(EVAL_FAILED_PREFIX@ + cause@),
        Some(Ok(_)) => Ok(()),
    }
}

/// A `Result` with the text of its error in place of the error.
pub open spec fn result_text(result: Result<(), String>) -> Result<(), Seq<char>> {
    match result {
        Ok(_) => Ok(()),
        Err(message) => Err(message@),
    }
}

/// Picks the surface to use among `surfaces`, each given with its label, in
/// the order in which the host enumerated them.
pub fn choose_surface<H>(surfaces: &Vec<(String, H)>) -> (place: Option<usize>)
    ensures
        match place {
            Some(i) => preferred_surface(surfaces@) == Some(i as int),
            None => preferred_surface(surfaces@) is None,
        },
{
    let main = String::from_str(MAIN_SURFACE);
    let mut i: usize = 0;
    while i < surfaces.len()
        invariant
            i <= surfaces.len(),
            main@ == MAIN_SURFACE@,
            forall|j: int| 0 <= j < i ==> (#[trigger] surfaces@[j]).0@ != MAIN_SURFACE@,
        decreases surfaces.len() - i,
    {
        if surfaces[i].0 == main {
            assert(is_first_main(surfaces@, i as int));
            assert forall|k: int| is_first_main(surfaces@, k) implies k == i by {
                if k < i {
                    assert(surfaces@[k].0@ != MAIN_SURFACE@);
                } else if i < k {
                    assert(surfaces@[i as int].0@ == MAIN_SURFACE@);
                }
            }
            return Some(i);
        }
        i += 1;
    }
    assert forall|k: int| !is_first_main(surfaces@, k) by {
        if 0 <= k < surfaces.len() {
            assert(surfaces@[k].0@ != MAIN_SURFACE@);
        }
    }
    if surfaces.len() > 0 {
        Some(0)
    } else {
        None
    }
}

/// The bridge to the one surface that scripts are sent into. The handle is
/// looked for when it is first needed and kept from then on.
pub struct WebViewBridge<H> {
    window: Option<H>,
}

impl<H> WebViewBridge<H> {
    /// The handle that the bridge holds, if it has found one.
    pub closed spec fn cached(&self) -> Option<H> {
        self.window
    }

    /// A bridge that has not looked for a surface yet.
    pub fn new() -> (bridge: Self)
        ensures
            bridge.cached() is None,
    {
        WebViewBridge { window: None }
    }

    /// Whether the surfaces have to be enumerated for the next call that
    /// needs the handle. Once a handle is held they need not be: the calls
    /// below then ignore what they are offered.
    pub fn needs_discovery(&self) -> (needed: bool)
        ensures
            needed == (self.cached() is None),
    {
        self.window.is_none()
    }

    /// The handle of the surface to use. The first call that is offered a
    /// surface picks one as [`choose_surface`] does and keeps it; every call
    /// after that returns the same handle, whatever it is offered. Returns
    /// `None` as long as no surface is offered, and may be called again then.
    pub fn get_window(&mut self, surfaces: Vec<(String, H)>) -> (window: Option<&H>)
        ensures
            final(self).cached() == resolved(old(self).cached(), surfaces@),
            match window {
                Some(handle) => final(self).cached() == Some(*handle),
                None => final(self).cached() is None,
            },
    {
        if self.window.is_none() {
            let mut offered = surfaces;
            match choose_surface(&offered) {
                Some(place) => {
                    let (_, handle) = offered.remove(place);
                    self.window = Some(handle);
                },
                None => {},
            }
        }
        self.window.as_ref()
    }

    /// Whether a surface is there to send scripts into, looking for one as
    /// [`WebViewBridge::get_window`] does.
    pub fn is_ready(&mut self, surfaces: Vec<(String, H)>) -> (ready: bool)
        ensures
            final(self).cached() == resolved(old(self).cached(), surfaces@),
            ready == (final(self).cached() is Some),
    {
        self.get_window(surfaces).is_some()
    }

    /// The result of sending a script into the surface. `attempt` is `None`
    /// where [`WebViewBridge::get_window`] found no surface, so that nothing
    /// was run, and else what the surface said when the script was handed to
    /// it. The result tells only whether the script was accepted for
    /// execution, never what it returned.
    pub fn execute_js(&self, attempt: Option<Result<(), String>>) -> (result: Result<(), String>)
        ensures
            result_text(result) == dispatch_result(attempt),
    {
        match attempt {
            None => Err(String::from_str(NO_WINDOW)),
            Some(Err(cause)) => {
                let mut message = String::from_str(EVAL_FAILED_PREFIX);
                message.append(cause.as_str());
                Err(message)
            },
            Some(Ok(_)) => Ok(()),
        }
    }

    /// The result of installing the capability object, which is sent into the
    /// surface as any other script is. Installing it again replaces it.
    pub fn inject_inspector(&self, attempt: Option<Result<(), String>>) -> (result: Result<
        (),
        String,
    >)
        ensures
            result_text(result) == dispatch_result(attempt),
    {
        self.execute_js(attempt)
    }
}

} // verus!
