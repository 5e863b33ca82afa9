use vstd::prelude::*;
use vstd::string::*;
use crate::ambient::now_seconds;
use crate::error::{BoothError, Missing};
use crate::generation::{first_move, NextMove, PLACEHOLDER_IMAGE};
use crate::model::{opt_view, PhotoSession, SessionStatus};
use crate::prompt::styled_prompt;
use crate::store::{lemma_patch_lookup, patch_rows, patched, SessionPatch, Store, StoreView};
use crate::table::lookup;
use crate::text::str_eq;

verus! {

/// How a generation request begins.
#[derive(Debug)]
pub enum Begin {
    /// The session is already being processed: it is returned as it is and
    /// the generation client is not to be called.
    Unchanged(PhotoSession),
    /// The session is now processing: call the generation client with this prompt.
    Generate(String),
}

/// What the caller got from the generation client.
#[derive(Debug)]
pub enum GenerationOutcome {
    /// The client returned this image.
    Generated(String),
    /// The client did not answer within the time limit.
    TimedOut,
    /// The client reported a failure.
    Failed,
}

pub open spec fn opt_str_view(o: Option<&str>) -> Option<Seq<char>> {
    match o {
        Some(x) => Some(x@),
        None => None,
    }
}

/// The decision taken at the start of a generation request for session
/// `id`: an error, `Ok(None)` when the session is already processing, or
/// `Ok(Some(prompt))` to generate with that prompt.
pub open spec fn plan_of(s: StoreView, id: Seq<char>, style_id: Option<Seq<char>>) -> Result<Option<Seq<char>>, BoothError> {
    match lookup(s.sessions, id) {
        None => Err(BoothError::NotFound(Missing::Session)),
        Some(sess) => if sess.status == SessionStatus::Processing {
            Ok(None)
        } else if lookup(s.modes, sess.mode_id@) is None {
            Err(BoothError::NotFound(Missing::Mode))
        } else {
            match lookup(s.effects, sess.effect_id@) {
                Some(e) => if e.mode_id@ != sess.mode_id@ {
                    Err(BoothError::NotFound(Missing::Effect))
                } else {
                    match style_id {
                        None => Ok(Some(e.prompt@)),
                        Some(sid) => match lookup(s.styles, sid) {
                            None => Err(BoothError::NotFound(Missing::Style)),
                            Some(st) => Ok(Some(styled_prompt(st.prompt_template@, e.prompt@))),
                        },
                    }
                },
                None => Err(BoothError::NotFound(Missing::Effect)),
            }
        },
    }
}

/// The image a session is finished with, or `None` for a failure.
pub open spec fn outcome_image(o: GenerationOutcome) -> Option<Seq<char>> {
    match o {
        GenerationOutcome::Generated(x) => Some(x@),
        GenerationOutcome::TimedOut => Some(PLACEHOLDER_IMAGE@),
        GenerationOutcome::Failed => None,
    }
}

/// `s` is `s0` finished with the captured `photo`, the generated `image`
/// and the chosen style, ready for preview.
pub open spec fn finished(s0: PhotoSession, s: PhotoSession, photo: Seq<char>, image: Seq<char>, style_id: Option<Seq<char>>) -> bool {
    &&& s.id == s0.id
    &&& s.mode_id == s0.mode_id
    &&& s.effect_id == s0.effect_id
    &&& s.created_at == s0.created_at
    &&& opt_view(s.original_photo) == Some(photo)
    &&& opt_view(s.generated_photo) == Some(image)
    &&& opt_view(s.style_id) == match style_id {
        Some(x) => Some(x),
        None => opt_view(s0.style_id),
    }
    &&& s.status == SessionStatus::Previewing
}

impl Store {
    /// Starts a generation request for session `session_id`: loads the
    /// session, returns it unchanged if it is already processing, else
    /// resolves its mode, effect and optional style into the prompt and
    /// marks the session processing before any call to the client.
    pub fn begin_generation(&mut self, session_id: &str, style_id: Option<&str>) -> (r: Result<Begin, BoothError>)
        requires
            old(self).wf(),
        ensures
            final(self).wf(),
            match plan_of(old(self)@, session_id@, opt_str_view(style_id)) {
                Err(e) => r == Err::<Begin, BoothError>(e) && final(self)@ == old(self)@,
                Ok(None) => r == Ok::<Begin, BoothError>(Begin::Unchanged(lookup(old(self)@.sessions, session_id@)->0))
                    && final(self)@ == old(self)@,
                Ok(Some(p)) => {
                    &&& r is Ok && r->Ok_0 is Generate && r->Ok_0->Generate_0@ == p
                    &&& final(self)@ == (StoreView { sessions: final(self)@.sessions, ..old(self)@ })
                    &&& exists|t: i64|
                        #[trigger] patch_rows(old(self)@.sessions, session_id@, SessionPatch::Status(SessionStatus::Processing), t)
                            == final(self)@.sessions
                },
            },
    {
        let session = match self.get_session(session_id) {
            Some(s) => s,
            None => return Err(BoothError::NotFound(Missing::Session)),
        };
        if session.status == SessionStatus::Processing {
            return Ok(Begin::Unchanged(session));
        }
        if self.get_mode_by_id(session.mode_id.as_str()).is_none() {
            return Err(BoothError::NotFound(Missing::Mode));
        }
        let effect = match self.get_effect(session.effect_id.as_str()) {
            Some(e) => e,
            None => return Err(BoothError::NotFound(Missing::Effect)),
        };
        if !str_eq(effect.mode_id.as_str(), session.mode_id.as_str()) {
            return Err(BoothError::NotFound(Missing::Effect));
        }
        let prompt = match style_id {
            None => effect.prompt,
            Some(sid) => match self.generate_prompt(sid, effect.prompt.as_str()) {
                Ok(p) => p,
                Err(e) => return Err(e),
            },
        };
        let now = now_seconds();
        self.patch_session(session_id, SessionPatch::Status(SessionStatus::Processing), now);
        Ok(Begin::Generate(prompt))
    }

    /// Completes a generation request: on a failure nothing is stored and
    /// the failure is returned; otherwise the photo, the generated image (the
    /// placeholder after a timeout) and the style are stored, the session
    /// moves to preview and is returned.
    pub fn finish_generation(
        &mut self,
        session_id: &str,
        photo_base64: &str,
        style_id: Option<&str>,
        outcome: GenerationOutcome,
    ) -> (r: Result<PhotoSession, BoothError>)
        requires
            old(self).wf(),
        ensures
            final(self).wf(),
            match outcome_image(outcome) {
                None => r == Err::<PhotoSession, BoothError>(BoothError::GenerationFailed) && final(self)@ == old(self)@,
                Some(image) => match lookup(old(self)@.sessions, session_id@) {
                    None => r == Err::<PhotoSession, BoothError>(BoothError::NotFound(Missing::Session))
                        && final(self)@ == old(self)@,
                    Some(s0) => {
                        &&& r is Ok
                        &&& finished(s0, r->Ok_0, photo_base64@, image, opt_str_view(style_id))
                        &&& lookup(final(self)@.sessions, session_id@) == Some(r->Ok_0)
                        &&& forall|k: Seq<char>| k != session_id@ ==>
                            #[trigger] lookup(final(self)@.sessions, k) == lookup(old(self)@.sessions, k)
                        &&& final(self)@ == (StoreView { sessions: final(self)@.sessions, ..old(self)@ })
                    },
                },
            },
    {
        let ghost id = session_id@;
        let ghost s0 = self@;
        let image = match outcome {
            GenerationOutcome::Generated(x) => x,
            GenerationOutcome::TimedOut => String::from_str(PLACEHOLDER_IMAGE),
            GenerationOutcome::Failed => return Err(BoothError::GenerationFailed),
        };
        let now = now_seconds();
        let p1 = SessionPatch::OriginalPhoto(String::from_str(photo_base64));
        proof { lemma_patch_lookup(self@.sessions, id, p1, now); }
        self.patch_session(session_id, p1, now);
        let ghost s1 = self@;
        let p2 = SessionPatch::GeneratedPhoto(image);
        proof { lemma_patch_lookup(self@.sessions, id, p2, now); }
        self.patch_session(session_id, p2, now);
        let ghost s2 = self@;
        match style_id {
            Some(sid) => {
                let p3 = SessionPatch::StyleId(String::from_str(sid));
                proof { lemma_patch_lookup(self@.sessions, id, p3, now); }
                self.patch_session(session_id, p3, now);
            },
            None => {},
        }
        let ghost s3 = self@;
        let p4 = SessionPatch::Status(SessionStatus::Previewing);
        proof { lemma_patch_lookup(self@.sessions, id, p4, now); }
        self.patch_session(session_id, p4, now);
        proof {
            if lookup(s0.sessions, id) is None {
                assert(s1 == s0);
                assert(s2 == s0);
                assert(s3 == s0);
            } else {
                let a = lookup(s0.sessions, id)->0;
                assert(lookup(s1.sessions, id) == Some(patched(a, p1, now)));
                assert(lookup(s2.sessions, id) == Some(patched(patched(a, p1, now), p2, now)));
            }
            assert forall|k: Seq<char>| k != id implies #[trigger] lookup(self@.sessions, k) == lookup(s0.sessions, k) by {
                assert(lookup(s3.sessions, k) == lookup(s0.sessions, k));
            }
        }
        match self.get_session(session_id) {
            Some(s) => Ok(s),
            None => Err(BoothError::NotFound(Missing::Session)),
        }
    }
}

/// Once a request has begun generating for a session, a second request for
/// the same session, whatever its style, finds it processing: it gets the
/// session back unchanged and the generation client is not called again.
pub proof fn law_single_flight(
    s: StoreView,
    id: Seq<char>,
    first_style: Option<Seq<char>>,
    second_style: Option<Seq<char>>,
    t: i64,
)
    requires
        s.wf(),
        plan_of(s, id, first_style) is Ok,
        plan_of(s, id, first_style)->Ok_0 is Some,
    ensures
        plan_of(
            StoreView { sessions: patch_rows(s.sessions, id, SessionPatch::Status(SessionStatus::Processing), t), ..s },
            id,
            second_style,
        ) == Ok::<Option<Seq<char>>, BoothError>(None),
{
    lemma_patch_lookup(s.sessions, id, SessionPatch::Status(SessionStatus::Processing), t);
}

/// A client in mock mode finishes at once, sending nothing; a session
/// finished with what it returned holds the placeholder as its generated
/// photo and is previewing.
pub proof fn law_mock_generation(
    image: Seq<char>,
    s0: PhotoSession,
    s: PhotoSession,
    photo: Seq<char>,
    style_id: Option<Seq<char>>,
)
    requires
        first_move(true) == NextMove::Finish(Ok::<Seq<char>, BoothError>(image)),
        finished(s0, s, photo, image, style_id),
    ensures
        image == PLACEHOLDER_IMAGE@,
        opt_view(s.generated_photo) == Some(PLACEHOLDER_IMAGE@),
        s.status == SessionStatus::Previewing,
{
}

} // verus!
