//! The translation workflow and the decisions of the running application.
use crate::capture::CapturedText;
use crate::config::{
    default_profile_index, has_profile, missing_profile_message, no_profile_message,
    profile_position, AppSettings, SettingsView, TranslatorProfile,
};
use crate::error::{AppError, Result};
use crate::text::{is_blank, join2, owned, str_blank, str_equal};
use crate::config::TranslatorProvider;
use crate::translator::{ProviderKind, TranslationRequest, TranslationResponse};
use crate::ui::settings_window::{api_key_purpose, api_key_purpose_text};
use vstd::prelude::*;

verus! {

/// Takes the selected text.
pub trait WorkflowCapture {
    fn capture(&self) -> Result<CapturedText>;
}

/// Translates a request, waiting for the answer.
pub trait WorkflowTranslator {
    fn translate_blocking(&self, request: TranslationRequest) -> Result<TranslationResponse>;
}

impl<T: WorkflowTranslator + ?Sized> WorkflowTranslator for Box<T> {
    /// What the boxed translator gives for the request.
    fn translate_blocking(&self, request: TranslationRequest) -> (r: Result<TranslationResponse>)
        ensures
            call_ensures(T::translate_blocking, (&**self, request), r),
    {
        let inner: &T = &**self;
        let r = inner.translate_blocking(request);
        assert(call_ensures(T::translate_blocking, (inner, request), r));
        r
    }
}

/// A finished translation: the source, its translation and who translated
/// it.
#[derive(Debug, Clone, PartialEq, Eq)]
pub struct TranslationWorkflowResult {
    pub source_text: String,
    pub translated_text: String,
    pub provider: ProviderKind,
}

/// Told of each step of a translation; an error stops the translation.
pub trait TranslationObserver {
    /// The translation started; by default nothing is done and it goes on.
    fn translation_started(&mut self) -> (r: Result<()>)
        default_ensures
            r is Ok,
    {
        Ok(())
    }

    /// The source text was taken; by default nothing is done and the
    /// translation goes on.
    fn source_captured(&mut self, _source_text: &str) -> (r: Result<()>)
        default_ensures
            r is Ok,
    {
        Ok(())
    }

    /// The translation succeeded; by default nothing is done.
    fn translation_succeeded(&mut self, _result: &TranslationWorkflowResult) -> (r: Result<()>)
        default_ensures
            r is Ok,
    {
        Ok(())
    }
}

impl TranslationObserver for () {

}

/// An observer of type `O` was told that the translation started and
/// answered `s`.
pub open spec fn told_started<O: TranslationObserver>(s: Result<()>) -> bool {
    exists|m: &mut O|
        #![trigger call_ensures(O::translation_started, (m,), s)]
        call_ensures(O::translation_started, (m,), s)
}

/// An observer of type `O` was told the source `text` and answered `s`.
pub open spec fn told_source<O: TranslationObserver>(text: Seq<char>, s: Result<()>) -> bool {
    exists|m: &mut O, t: &str|
        #![trigger call_ensures(O::source_captured, (m, t), s)]
        t@ == text && call_ensures(O::source_captured, (m, t), s)
}

/// An observer of type `O` was told the result `res` and answered `s`.
pub open spec fn told_succeeded<O: TranslationObserver>(res: TranslationWorkflowResult, s: Result<()>) -> bool {
    exists|m: &mut O|
        #![trigger call_ensures(O::translation_succeeded, (m, &res), s)]
        call_ensures(O::translation_succeeded, (m, &res), s)
}

/// The observer behind `m` was told that the translation started and
/// answered `s`.
pub open spec fn told_started_on<O: TranslationObserver>(m: &mut O, s: Result<()>) -> bool {
    call_ensures(O::translation_started, (m,), s)
}

/// The observer behind `m` was told the source `text` and answered `s`.
pub open spec fn told_source_on<O: TranslationObserver>(m: &mut O, text: Seq<char>, s: Result<()>) -> bool {
    exists|t: &str| #![trigger call_ensures(O::source_captured, (m, t), s)]
        t@ == text && call_ensures(O::source_captured, (m, t), s)
}

/// The observer behind `m` was told the result `res` and answered `s`.
pub open spec fn told_succeeded_on<O: TranslationObserver>(
    m: &mut O,
    res: TranslationWorkflowResult,
    s: Result<()>,
) -> bool {
    call_ensures(O::translation_succeeded, (m, &res), s)
}

/// `translator` answered `ans` to the request for `source` into `target`:
/// the source as the text, `auto` as its language, the target.
pub open spec fn answered<T: WorkflowTranslator>(
    translator: T,
    source: Seq<char>,
    target: Seq<char>,
    ans: Result<TranslationResponse>,
) -> bool {
    exists|req: TranslationRequest|
        #![trigger call_ensures(T::translate_blocking, (&translator, req), ans)]
        workflow_request_ok(req, source, target) && call_ensures(
            T::translate_blocking,
            (&translator, req),
            ans,
        )
}

/// `res` is the result for `source` and the answer `resp`.
pub open spec fn result_of(source: Seq<char>, resp: TranslationResponse, res: TranslationWorkflowResult) -> bool {
    res.source_text@ == source && res.translated_text == resp.translated_text && res.provider
        == resp.provider
}

/// The translation of a source that is not blank: the observer is told the
/// source; then the translator is asked; then the observer is told the
/// result, which is returned. The first error, of the observer or of the
/// translator, ends it and is returned as it is.
pub open spec fn translate_step<O: TranslationObserver, T: WorkflowTranslator>(
    translator: T,
    source: Seq<char>,
    target: Seq<char>,
    r: Result<TranslationWorkflowResult>,
) -> bool {
    exists|s1: Result<()>|
        #![trigger told_source::<O>(source, s1)]
        told_source::<O>(source, s1) && match s1 {
            Err(e) => r matches Err(x) && x == e,
            Ok(_) => exists|ans: Result<TranslationResponse>|
                #![trigger answered(translator, source, target, ans)]
                answered(translator, source, target, ans) && match ans {
                    Err(e) => r matches Err(x) && x == e,
                    Ok(resp) => exists|res: TranslationWorkflowResult, s3: Result<()>|
                        #![trigger told_succeeded::<O>(res, s3)]
                        result_of(source, resp, res) && told_succeeded::<O>(res, s3) && match s3 {
                            Err(e) => r matches Err(x) && x == e,
                            Ok(_) => r matches Ok(x) && x == res,
                        },
                },
        }
}

/// The translation of a given text (see `translate_step`): a blank text is
/// refused; else the observer is told that it started, and its error ends
/// it.
pub open spec fn text_outcome<O: TranslationObserver, T: WorkflowTranslator>(
    translator: T,
    source: Seq<char>,
    target: Seq<char>,
    r: Result<TranslationWorkflowResult>,
) -> bool {
    if is_blank(source) {
        r matches Err(e) && e matches AppError::Translate(m) && m@ == empty_source_message()
    } else {
        exists|s0: Result<()>|
            #![trigger told_started::<O>(s0)]
            told_started::<O>(s0) && match s0 {
                Err(e) => r matches Err(x) && x == e,
                Ok(_) => translate_step::<O, T>(translator, source, target, r),
            }
    }
}

/// The translation of the selection: `capture` takes the text, and its
/// failure is passed on; then the observer is told that it started, and
/// its error ends it; a blank text is refused; else the text is translated
/// (see `translate_step`).
pub open spec fn selection_outcome<C: WorkflowCapture, T: WorkflowTranslator, O: TranslationObserver>(
    capture: C,
    translator: T,
    target: Seq<char>,
    r: Result<TranslationWorkflowResult>,
) -> bool {
    exists|c: Result<CapturedText>|
        #![trigger call_ensures(C::capture, (&capture,), c)]
        call_ensures(C::capture, (&capture,), c) && match c {
            Err(e) => r matches Err(x) && x == e,
            Ok(captured) => exists|s0: Result<()>|
                #![trigger told_started::<O>(s0)]
                told_started::<O>(s0) && match s0 {
                    Err(e) => r matches Err(x) && x == e,
                    Ok(_) => if is_blank(captured.text@) {
                        r matches Err(e) && e matches AppError::Translate(m) && m@
                            == empty_source_message()
                    } else {
                        translate_step::<O, T>(translator, captured.text@, target, r)
                    },
                },
        }
}

/// Takes the selection (or a given text) and has it translated.
pub struct TranslationWorkflow<C, T> {
    capture: C,
    translator: T,
}

/// The message when the source is blank.
pub open spec fn empty_source_message() -> Seq<char> {
    "原文为空"@
}

/// The request sent for a source: from any language into the target.
pub open spec fn workflow_request_ok(r: TranslationRequest, source: Seq<char>, target: Seq<char>) -> bool {
    &&& r.text@ == source
    &&& r.source_lang@ == "auto"@
    &&& r.target_lang@ == target
}

/// The request sent for a source: from any language (`auto`) into the
/// target.
pub fn workflow_request(source_text: &str, target_lang: &str) -> (r: TranslationRequest)
    ensures
        workflow_request_ok(r, source_text@, target_lang@),
{
    TranslationRequest {
        text: owned(source_text),
        source_lang: owned("auto"),
        target_lang: owned(target_lang),
    }
}

/// The result for a source and the answer of the translator.
pub fn workflow_result(source_text: &str, response: TranslationResponse) -> (r: TranslationWorkflowResult)
    ensures
        r.source_text@ == source_text@,
        r.translated_text == response.translated_text,
        r.provider == response.provider,
{
    TranslationWorkflowResult {
        source_text: owned(source_text),
        translated_text: response.translated_text,
        provider: response.provider,
    }
}

/// The error for a blank source.
fn empty_source_error() -> (e: AppError)
    ensures
        e matches AppError::Translate(m) && m@ == empty_source_message(),
{
    AppError::Translate(owned("原文为空"))
}

impl<C: WorkflowCapture, T: WorkflowTranslator> TranslationWorkflow<C, T> {
    /// A workflow with the given capture and translator.
    pub fn new(capture: C, translator: T) -> (w: Self)
        ensures
            w.capture_spec() == capture,
            w.translator_spec() == translator,
    {
        TranslationWorkflow { capture, translator }
    }

    /// The capture of the workflow.
    pub closed spec fn capture_spec(&self) -> C {
        self.capture
    }

    /// The translator of the workflow.
    pub closed spec fn translator_spec(&self) -> T {
        self.translator
    }

    /// Takes the selection and translates it into `target_lang` (see
    /// `selection_outcome`).
    pub fn translate_selection(&self, target_lang: &str) -> (r: Result<TranslationWorkflowResult>)
        ensures
            selection_outcome::<C, T, ()>(self.capture_spec(), self.translator_spec(), target_lang@, r),
            r matches Ok(res) ==> !is_blank(res.source_text@),
    {
        let mut observer = ();
        self.translate_selection_with_observer(target_lang, &mut observer)
    }

    /// Translates `source_text` into `target_lang`, without taking the
    /// selection (see `text_outcome`).
    pub fn translate_text(&self, source_text: &str, target_lang: &str) -> (r: Result<
        TranslationWorkflowResult,
    >)
        ensures
            text_outcome::<(), T>(self.translator_spec(), source_text@, target_lang@, r),
            r matches Ok(res) ==> res.source_text@ == source_text@,
    {
        let mut observer = ();
        self.translate_text_with_observer(source_text, target_lang, &mut observer)
    }

    /// Translates `source_text` into `target_lang`, telling the observer of
    /// each step (see `text_outcome`): a blank source is refused before the
    /// observer hears of it; the result carries the source as given.
    pub fn translate_text_with_observer<O: TranslationObserver>(
        &self,
        source_text: &str,
        target_lang: &str,
        observer: &mut O,
    ) -> (r: Result<TranslationWorkflowResult>)
        ensures
            text_outcome::<O, T>(self.translator_spec(), source_text@, target_lang@, r),
            is_blank(source_text@) ==> *final(observer) == *old(observer),
            !is_blank(source_text@) ==> exists|m0: &mut O, s0: Result<()>|
                    #![trigger told_started_on(m0, s0)]
                    *m0 == *old(observer) && told_started_on(m0, s0) && match s0 {
                        Err(e) => (r matches Err(x) && x == e) && *final(observer) == *final(m0),
                        Ok(_) => exists|m1: &mut O, s1: Result<()>|
                            #![trigger told_source_on(m1, source_text@, s1)]
                            *m1 == *final(m0) && told_source_on(m1, source_text@, s1) && match s1 {
                                Err(e) => (r matches Err(x) && x == e) && *final(observer) == *final(m1),
                                Ok(_) => exists|ans: Result<TranslationResponse>|
                                    #![trigger answered(self.translator_spec(), source_text@, target_lang@, ans)]
                                    answered(self.translator_spec(), source_text@, target_lang@, ans) && match ans {
                                        Err(e) => (r matches Err(x) && x == e) && *final(observer) == *final(m1),
                                        Ok(resp) => exists|res: TranslationWorkflowResult, m3: &mut O, s3: Result<()>|
                                            #![trigger told_succeeded_on(m3, res, s3)]
                                            result_of(source_text@, resp, res) && *m3 == *final(m1) && told_succeeded_on(m3, res, s3)
                                                && *final(observer) == *final(m3) && match s3 {
                                                Err(e) => r matches Err(x) && x == e,
                                                Ok(_) => r matches Ok(x) && x == res,
                                            },
                                    },
                            },
                    },
            r matches Ok(res) ==> res.source_text@ == source_text@,
    {
        if str_blank(source_text) {
            return Err(empty_source_error());
        }
        let ghost o_start = *observer;
        let s0 = observer.translation_started();
        assert(told_started::<O>(s0));
        assert(exists|m: &mut O|
            *m == o_start && *final(m) == *observer && call_ensures(
                O::translation_started,
                (m,),
                s0,
            ));
        let ghost m0 = choose|m: &mut O|
            *m == o_start && *final(m) == *observer && call_ensures(
                O::translation_started,
                (m,),
                s0,
            );
        assert(told_started_on(m0, s0));
        match s0 {
            Err(e) => {
                return Err(e);
            },
            Ok(_) => {},
        }
        self.translate_captured_text_with_observer(source_text, target_lang, observer)
    }

    /// Takes the selection, then tells the observer that the translation
    /// started, and translates the text taken into `target_lang`; a blank
    /// selection is refused (see `selection_outcome`).
    pub fn translate_selection_with_observer<O: TranslationObserver>(
        &self,
        target_lang: &str,
        observer: &mut O,
    ) -> (r: Result<TranslationWorkflowResult>)
        ensures
            selection_outcome::<C, T, O>(self.capture_spec(), self.translator_spec(), target_lang@, r),
            exists|c: Result<CapturedText>|
                    #![trigger call_ensures(C::capture, (&self.capture_spec(),), c)]
                    call_ensures(C::capture, (&self.capture_spec(),), c) && match c {
                        Err(e) => (r matches Err(x) && x == e) && *final(observer) == *old(observer),
                        Ok(captured) => exists|m0: &mut O, s0: Result<()>|
                            #![trigger told_started_on(m0, s0)]
                            *m0 == *old(observer) && told_started_on(m0, s0) && match s0 {
                                Err(e) => (r matches Err(x) && x == e) && *final(observer) == *final(m0),
                                Ok(_) => if is_blank(captured.text@) {
                                    (r matches Err(e) && e matches AppError::Translate(m) && m@
                                        == empty_source_message()) && *final(observer) == *final(m0)
                                } else {
                                    exists|m1: &mut O, s1: Result<()>|
                                    #![trigger told_source_on(m1, captured.text@, s1)]
                                    *m1 == *final(m0) && told_source_on(m1, captured.text@, s1) && match s1 {
                                        Err(e) => (r matches Err(x) && x == e) && *final(observer) == *final(m1),
                                        Ok(_) => exists|ans: Result<TranslationResponse>|
                                            #![trigger answered(self.translator_spec(), captured.text@, target_lang@, ans)]
                                            answered(self.translator_spec(), captured.text@, target_lang@, ans) && match ans {
                                                Err(e) => (r matches Err(x) && x == e) && *final(observer) == *final(m1),
                                                Ok(resp) => exists|res: TranslationWorkflowResult, m3: &mut O, s3: Result<()>|
                                                    #![trigger told_succeeded_on(m3, res, s3)]
                                                    result_of(captured.text@, resp, res) && *m3 == *final(m1) && told_succeeded_on(m3, res, s3)
                                                        && *final(observer) == *final(m3) && match s3 {
                                                        Err(e) => r matches Err(x) && x == e,
                                                        Ok(_) => r matches Ok(x) && x == res,
                                                    },
                                            },
                                    }
                                },
                            },
                    },
            r matches Ok(res) ==> !is_blank(res.source_text@),
    {
        let capture = &self.capture;
        let c = capture.capture();
        assert(call_ensures(C::capture, (capture,), c));
        let captured = match c {
            Ok(captured) => captured,
            Err(e) => {
                return Err(e);
            },
        };
        let ghost o_start = *observer;
        let s0 = observer.translation_started();
        assert(told_started::<O>(s0));
        assert(exists|m: &mut O|
            *m == o_start && *final(m) == *observer && call_ensures(
                O::translation_started,
                (m,),
                s0,
            ));
        let ghost m0 = choose|m: &mut O|
            *m == o_start && *final(m) == *observer && call_ensures(
                O::translation_started,
                (m,),
                s0,
            );
        assert(told_started_on(m0, s0));
        match s0 {
            Err(e) => {
                return Err(e);
            },
            Ok(_) => {},
        }
        self.translate_captured_text_with_observer(captured.text.as_str(), target_lang, observer)
    }

    fn translate_captured_text_with_observer<O: TranslationObserver>(
        &self,
        source_text: &str,
        target_lang: &str,
        observer: &mut O,
    ) -> (r: Result<TranslationWorkflowResult>)
        ensures
            is_blank(source_text@) ==> (r matches Err(e) && e matches AppError::Translate(m) && m@
                == empty_source_message()) && *final(observer) == *old(observer),
            !is_blank(source_text@) ==> translate_step::<O, T>(
                self.translator_spec(),
                source_text@,
                target_lang@,
                r,
            ),
            !is_blank(source_text@) ==> exists|m1: &mut O, s1: Result<()>|
                    #![trigger told_source_on(m1, source_text@, s1)]
                    *m1 == *old(observer) && told_source_on(m1, source_text@, s1) && match s1 {
                        Err(e) => (r matches Err(x) && x == e) && *final(observer) == *final(m1),
                        Ok(_) => exists|ans: Result<TranslationResponse>|
                            #![trigger answered(self.translator_spec(), source_text@, target_lang@, ans)]
                            answered(self.translator_spec(), source_text@, target_lang@, ans) && match ans {
                                Err(e) => (r matches Err(x) && x == e) && *final(observer) == *final(m1),
                                Ok(resp) => exists|res: TranslationWorkflowResult, m3: &mut O, s3: Result<()>|
                                    #![trigger told_succeeded_on(m3, res, s3)]
                                    result_of(source_text@, resp, res) && *m3 == *final(m1) && told_succeeded_on(m3, res, s3)
                                        && *final(observer) == *final(m3) && match s3 {
                                        Err(e) => r matches Err(x) && x == e,
                                        Ok(_) => r matches Ok(x) && x == res,
                                    },
                            },
                    },
            r matches Ok(res) ==> res.source_text@ == source_text@ && !is_blank(source_text@),
    {
        if str_blank(source_text) {
            return Err(empty_source_error());
        }
        let ghost o_start = *observer;
        let s1 = observer.source_captured(source_text);
        assert(told_source::<O>(source_text@, s1));
        assert(exists|m: &mut O|
            *m == o_start && *final(m) == *observer && call_ensures(
                O::source_captured,
                (m, source_text),
                s1,
            ));
        let ghost m1 = choose|m: &mut O|
            *m == o_start && *final(m) == *observer && call_ensures(
                O::source_captured,
                (m, source_text),
                s1,
            );
        assert(told_source_on(m1, source_text@, s1));
        match s1 {
            Err(e) => {
                return Err(e);
            },
            Ok(_) => {},
        }
        let request = workflow_request(source_text, target_lang);
        let translator = &self.translator;
        let answer = translator.translate_blocking(request);
        assert(answered(self.translator_spec(), source_text@, target_lang@, answer)) by {
            assert(call_ensures(T::translate_blocking, (translator, request), answer));
        }
        let response = match answer {
            Ok(response) => response,
            Err(e) => {
                return Err(e);
            },
        };
        let ghost resp = response;
        let result = workflow_result(source_text, response);
        let ghost o_mid = *observer;
        let s3 = observer.translation_succeeded(&result);
        assert(told_succeeded::<O>(result, s3));
        assert(exists|m: &mut O|
            *m == o_mid && *final(m) == *observer && call_ensures(
                O::translation_succeeded,
                (m, &result),
                s3,
            ));
        let ghost m3 = choose|m: &mut O|
            *m == o_mid && *final(m) == *observer && call_ensures(
                O::translation_succeeded,
                (m, &result),
                s3,
            );
        assert(told_succeeded_on(m3, result, s3));
        assert(result_of(source_text@, resp, result));
        match s3 {
            Err(e) => Err(e),
            Ok(_) => Ok(result),
        }
    }
}

/// The state of the running application: its settings and the profile it
/// translates with.
#[derive(Debug, Clone)]
pub struct AppRuntimeState {
    settings: AppSettings,
    active_profile_id: String,
}

/// The running state with its texts as character sequences.
pub struct RuntimeView {
    pub settings: SettingsView,
    pub active_profile_id: Seq<char>,
}

impl View for AppRuntimeState {
    type V = RuntimeView;

    closed spec fn view(&self) -> RuntimeView {
        RuntimeView { settings: self.settings@, active_profile_id: self.active_profile_id@ }
    }
}

/// The profile the application starts with: the default one, or `google`
/// when there is no profile at all.
pub open spec fn initial_active_id(v: SettingsView) -> Seq<char> {
    match default_profile_index(v) {
        Some(i) => v.translator_profiles[i].id,
        None => "google"@,
    }
}

/// The profile translated with: the active one, else the default one, else
/// the first one.
pub open spec fn active_profile_index(v: RuntimeView) -> Option<int> {
    match profile_position(v.settings.translator_profiles, v.active_profile_id) {
        Some(i) => Some(i),
        None => default_profile_index(v.settings),
    }
}

/// The state after the profile `id` is picked, when a profile has that id:
/// it becomes the active one and the default one.
pub open spec fn selected_view(v: RuntimeView, id: Seq<char>) -> RuntimeView {
    RuntimeView {
        settings: SettingsView { default_profile_id: id, ..v.settings },
        active_profile_id: id,
    }
}

/// The state after the settings are replaced: the default profile becomes
/// the active one; when it names none, the first profile becomes both; with
/// no profile, the active id stays.
pub open spec fn replaced_view(v: RuntimeView, s: SettingsView) -> RuntimeView {
    if has_profile(s.translator_profiles, s.default_profile_id) {
        RuntimeView { settings: s, active_profile_id: s.default_profile_id }
    } else if s.translator_profiles.len() > 0 {
        RuntimeView {
            settings: SettingsView { default_profile_id: s.translator_profiles[0].id, ..s },
            active_profile_id: s.translator_profiles[0].id,
        }
    } else {
        RuntimeView { settings: s, active_profile_id: v.active_profile_id }
    }
}

impl AppRuntimeState {
    /// The state for the given settings, with their default profile active.
    pub fn new(settings: AppSettings) -> (s: AppRuntimeState)
        ensures
            s@.settings == settings@,
            s@.active_profile_id == initial_active_id(settings@),
    {
        let active_profile_id = match settings.default_profile() {
            Ok(profile) => {
                proof {
                    crate::config::lemma_profile_position(
                        settings@.translator_profiles,
                        settings@.default_profile_id,
                    );
                    if let Some(i) = default_profile_index(settings@) {
                        assert(settings@.translator_profiles[i] == settings.translator_profiles@[i]@);
                    }
                }
                profile.id.clone()
            },
            Err(_) => owned("google"),
        };
        AppRuntimeState { settings, active_profile_id }
    }

    /// The settings.
    pub fn settings(&self) -> (s: &AppSettings)
        ensures
            s@ == self@.settings,
    {
        &self.settings
    }

    /// The id of the profile translated with.
    pub fn active_profile_id(&self) -> (id: &str)
        ensures
            id@ == self@.active_profile_id,
    {
        self.active_profile_id.as_str()
    }

    /// The profile translated with (see `active_profile_index`); an error
    /// when there is no profile at all.
    pub fn active_profile(&self) -> (r: Result<&TranslatorProfile>)
        ensures
            match active_profile_index(self@) {
                Some(i) => r matches Ok(p) && p@ == self@.settings.translator_profiles[i],
                None => r matches Err(e) && e matches AppError::Config(m) && m@
                    == no_profile_message(),
            },
    {
        proof {
            crate::config::lemma_profile_position(
                self@.settings.translator_profiles,
                self@.active_profile_id,
            );
            crate::config::lemma_profile_position(
                self@.settings.translator_profiles,
                self@.settings.default_profile_id,
            );
        }
        if let Some(profile) = self.settings.profile_by_id(self.active_profile_id.as_str()) {
            return Ok(profile);
        }
        if let Some(profile) = self.settings.profile_by_id(self.settings.default_profile_id.as_str()) {
            return Ok(profile);
        }
        if self.settings.translator_profiles.len() > 0 {
            return Ok(&self.settings.translator_profiles[0]);
        }
        Err(AppError::Config(owned("没有可用的翻译配置")))
    }

    /// Makes the profile `id` the active and the default one; an error, with
    /// nothing changed, when no profile has that id.
    pub fn select_profile(&mut self, profile_id: &str) -> (r: Result<()>)
        ensures
            has_profile(old(self)@.settings.translator_profiles, profile_id@) ==> r is Ok
                && final(self)@ == selected_view(old(self)@, profile_id@),
            !has_profile(old(self)@.settings.translator_profiles, profile_id@) ==> (r matches Err(
                e,
            ) && e matches AppError::Config(m) && m@ == missing_profile_message() && final(self)@
                == old(self)@),
    {
        proof {
            crate::config::lemma_profile_position(
                self@.settings.translator_profiles,
                profile_id@,
            );
        }
        if self.settings.profile_by_id(profile_id).is_none() {
            return Err(AppError::Config(owned("翻译配置不存在")));
        }
        self.active_profile_id = owned(profile_id);
        self.settings.default_profile_id = owned(profile_id);
        Ok(())
    }

    /// Puts new settings in place (see `replaced_view`).
    pub fn replace_settings(&mut self, settings: AppSettings)
        ensures
            final(self)@ == replaced_view(old(self)@, settings@),
    {
        proof {
            crate::config::lemma_profile_position(
                settings@.translator_profiles,
                settings@.default_profile_id,
            );
        }
        self.settings = settings;
        if self.settings.profile_by_id(self.settings.default_profile_id.as_str()).is_some() {
            self.active_profile_id = self.settings.default_profile_id.clone();
        } else if self.settings.translator_profiles.len() > 0 {
            let first_id = self.settings.translator_profiles[0].id.clone();
            self.active_profile_id = first_id.clone();
            self.settings.default_profile_id = first_id;
        }
    }
}

/// Once a profile is picked, it is the one translated with.
pub proof fn law_selected_profile_is_active(v: RuntimeView, id: Seq<char>)
    requires
        has_profile(v.settings.translator_profiles, id),
    ensures
        active_profile_index(selected_view(v, id)) == profile_position(
            v.settings.translator_profiles,
            id,
        ),
        active_profile_index(selected_view(v, id)) matches Some(i)
            && v.settings.translator_profiles[i].id == id,
{
    crate::config::lemma_profile_position(v.settings.translator_profiles, id);
}

/// After the settings are replaced by settings with a profile, the active
/// profile is their default profile.
pub proof fn law_replaced_settings_use_default_profile(v: RuntimeView, s: SettingsView)
    requires
        s.translator_profiles.len() > 0,
    ensures
        active_profile_index(replaced_view(v, s)) == default_profile_index(s),
        replaced_view(v, s).active_profile_id == replaced_view(v, s).settings.default_profile_id,
{
    crate::config::lemma_profile_position(s.translator_profiles, s.default_profile_id);
    let ps = s.translator_profiles;
    crate::config::lemma_profile_position(ps, ps[0].id);
}

/// The active id of the running state names one of its profiles.
pub open spec fn active_is_valid(v: RuntimeView) -> bool {
    has_profile(v.settings.translator_profiles, v.active_profile_id)
}

/// The running state always translates with a profile it has, as long as
/// its settings have any: it starts so, picking a profile keeps it so, and
/// so does putting new settings with a profile in place.
pub proof fn law_runtime_keeps_active_profile_valid(v: RuntimeView, s: SettingsView, id: Seq<char>)
    ensures
        s.translator_profiles.len() > 0 ==> has_profile(
            s.translator_profiles,
            initial_active_id(s),
        ),
        has_profile(v.settings.translator_profiles, id) ==> active_is_valid(selected_view(v, id)),
        s.translator_profiles.len() > 0 ==> active_is_valid(replaced_view(v, s)),
{
    crate::config::lemma_profile_position(s.translator_profiles, s.default_profile_id);
    let ps = s.translator_profiles;
    if ps.len() > 0 {
        assert(has_profile(ps, ps[0].id));
        if let Some(i) = default_profile_index(s) {
            assert(has_profile(ps, ps[i].id));
        }
    }
}

/// What a press of the global hotkey does.
#[derive(Debug, Clone, Copy, PartialEq, Eq, Structural)]
pub enum HotkeyAction {
    Ignore,
    TranslateSelection,
}

/// What becomes of a change of the hotkey.
#[derive(Debug, Clone, PartialEq, Eq)]
pub enum HotkeyRegistrationUpdate {
    Unchanged,
    Changed { hotkey: String },
    Rejected { rollback_hotkey: String, message: String },
}

/// The message when a new hotkey could not be registered, with the error.
pub open spec fn hotkey_rejected_message(error: Seq<char>) -> Seq<char> {
    "快捷键注册失败，请换一个组合键；当前仍使用原来的快捷键。"@ + error
}

/// What becomes of a change of the hotkey from `current_hotkey` to
/// `next_hotkey`: nothing when it is the same; else the new one when it
/// could be registered, or the old one kept, with a message that says so.
pub fn hotkey_registration_update(
    current_hotkey: &str,
    next_hotkey: &str,
    registration_result: std::result::Result<(), String>,
) -> (r: HotkeyRegistrationUpdate)
    ensures
        current_hotkey@ == next_hotkey@ ==> r is Unchanged,
        current_hotkey@ != next_hotkey@ ==> match registration_result {
            Ok(()) => r matches HotkeyRegistrationUpdate::Changed { hotkey } && hotkey@
                == next_hotkey@,
            Err(error) => r matches HotkeyRegistrationUpdate::Rejected { rollback_hotkey, message }
                && rollback_hotkey@ == current_hotkey@ && message@ == hotkey_rejected_message(
                error@,
            ),
        },
{
    if str_equal(current_hotkey, next_hotkey) {
        return HotkeyRegistrationUpdate::Unchanged;
    }
    match registration_result {
        Ok(()) => HotkeyRegistrationUpdate::Changed { hotkey: owned(next_hotkey) },
        Err(error) => HotkeyRegistrationUpdate::Rejected {
            rollback_hotkey: owned(current_hotkey),
            message: join2(
                "快捷键注册失败，请换一个组合键；当前仍使用原来的快捷键。",
                error.as_str(),
            ),
        },
    }
}

/// What a translation task translates.
#[derive(Debug, Clone, PartialEq, Eq)]
pub enum TranslationRequestKind {
    Selection,
    WindowText { source_text: String },
}

/// A task started by the hotkey translates the selection; one started from
/// the window translates the text in it.
pub fn translation_task_action(selection_requested: bool, source_text: &str) -> (r: TranslationRequestKind)
    ensures
        selection_requested ==> r is Selection,
        !selection_requested ==> (r matches TranslationRequestKind::WindowText { source_text: t }
            && t@ == source_text@),
{
    if selection_requested {
        TranslationRequestKind::Selection
    } else {
        TranslationRequestKind::WindowText { source_text: owned(source_text) }
    }
}

/// Runs a translation task with the workflow: the selection, or the text of
/// the window (a blank one refused).
pub fn run_translation_request_with_observer<C: WorkflowCapture, T: WorkflowTranslator, O: TranslationObserver>(
    workflow: &TranslationWorkflow<C, T>,
    request: TranslationRequestKind,
    target_lang: &str,
    observer: &mut O,
) -> (r: Result<TranslationWorkflowResult>)
    ensures
        r matches Ok(res) ==> !is_blank(res.source_text@),
        request matches TranslationRequestKind::Selection ==> selection_outcome::<C, T, O>(
            workflow.capture_spec(),
            workflow.translator_spec(),
            target_lang@,
            r,
        ),
        request matches TranslationRequestKind::WindowText { source_text } ==> text_outcome::<O, T>(
            workflow.translator_spec(),
            source_text@,
            target_lang@,
            r,
        ) && (is_blank(source_text@) ==> (r matches Err(e) && e matches AppError::Translate(m)
            && m@ == empty_source_message())) && (r matches Ok(res) ==> res.source_text@
            == source_text@),
        request matches TranslationRequestKind::Selection ==> exists|m: &mut O|
            #![trigger call_ensures(TranslationWorkflow::<C, T>::translate_selection_with_observer::<O>, (workflow, target_lang, m), r)]
            *m == *old(observer) && *final(m) == *final(observer) && call_ensures(
                TranslationWorkflow::<C, T>::translate_selection_with_observer::<O>,
                (workflow, target_lang, m),
                r,
            ),
        request matches TranslationRequestKind::WindowText { source_text } ==> exists|
            m: &mut O,
            t: &str,
        |
            #![trigger call_ensures(TranslationWorkflow::<C, T>::translate_text_with_observer::<O>, (workflow, t, target_lang, m), r)]
            t@ == source_text@ && *m == *old(observer) && *final(m) == *final(observer)
                && call_ensures(
                TranslationWorkflow::<C, T>::translate_text_with_observer::<O>,
                (workflow, t, target_lang, m),
                r,
            ),
{
    let ghost o_start = *observer;
    match request {
        TranslationRequestKind::Selection => {
            let r = workflow.translate_selection_with_observer(target_lang, observer);
            assert(exists|m: &mut O|
                *m == o_start && *final(m) == *observer && call_ensures(
                    TranslationWorkflow::<C, T>::translate_selection_with_observer::<O>,
                    (workflow, target_lang, m),
                    r,
                ));
            r
        },
        TranslationRequestKind::WindowText { source_text } => {
            let t = source_text.as_str();
            let r = workflow.translate_text_with_observer(t, target_lang, observer);
            assert(exists|m: &mut O|
                *m == o_start && *final(m) == *observer && call_ensures(
                    TranslationWorkflow::<C, T>::translate_text_with_observer::<O>,
                    (workflow, t, target_lang, m),
                    r,
                ));
            r
        },
    }
}

/// The hotkey is ignored while the translation window is in front (its text
/// fields take the keys); else it translates the selection.
pub fn hotkey_action(is_translation_window_foreground: bool) -> (r: HotkeyAction)
    ensures
        r == (if is_translation_window_foreground {
            HotkeyAction::Ignore
        } else {
            HotkeyAction::TranslateSelection
        }),
{
    if is_translation_window_foreground {
        HotkeyAction::Ignore
    } else {
        HotkeyAction::TranslateSelection
    }
}

/// What an entry of the tray menu does.
#[derive(Debug, Clone, Copy, PartialEq, Eq, Structural)]
pub enum TrayAction {
    ShowTranslationWindow,
    OpenSettings,
    OpenLogDirectory,
    Exit,
    Unknown,
}

/// The action of the tray menu entry with the given id.
pub open spec fn tray_action_of(menu_id: usize) -> TrayAction {
    if menu_id == crate::ui::tray::MENU_SHOW_TRANSLATION_WINDOW {
        TrayAction::ShowTranslationWindow
    } else if menu_id == crate::ui::tray::MENU_SETTINGS {
        TrayAction::OpenSettings
    } else if menu_id == crate::ui::tray::MENU_OPEN_LOG_DIRECTORY {
        TrayAction::OpenLogDirectory
    } else if menu_id == crate::ui::tray::MENU_EXIT {
        TrayAction::Exit
    } else {
        TrayAction::Unknown
    }
}

/// The action of the tray menu entry with the given id; ids of no entry
/// (an old one among them) do nothing.
pub fn tray_action_from_menu_id(menu_id: usize) -> (r: TrayAction)
    ensures
        r == tray_action_of(menu_id),
{
    if menu_id == crate::ui::tray::MENU_SHOW_TRANSLATION_WINDOW {
        TrayAction::ShowTranslationWindow
    } else if menu_id == crate::ui::tray::MENU_SETTINGS {
        TrayAction::OpenSettings
    } else if menu_id == crate::ui::tray::MENU_OPEN_LOG_DIRECTORY {
        TrayAction::OpenLogDirectory
    } else if menu_id == crate::ui::tray::MENU_EXIT {
        TrayAction::Exit
    } else {
        TrayAction::Unknown
    }
}

/// Which translator serves a profile.
#[derive(Debug, Clone, PartialEq, Eq)]
pub enum TranslatorPlan {
    /// The built-in Google translator.
    GoogleFree,
    /// A chat completions service, with the protected key and the purpose
    /// it is protected under.
    Chat {
        provider: ProviderKind,
        base_url: String,
        model: String,
        encrypted_api_key: String,
        key_purpose: String,
        timeout_secs: u64,
    },
}

/// Which translator serves the profile: Google needs nothing; every other
/// provider speaks the chat completions protocol and needs a saved key.
pub fn translator_plan(profile: &TranslatorProfile) -> (r: Result<TranslatorPlan>)
    ensures
        profile.provider == TranslatorProvider::Google ==> r matches Ok(TranslatorPlan::GoogleFree),
        profile.provider != TranslatorProvider::Google ==> match profile.encrypted_api_key {
            None => r matches Err(e) && e matches AppError::Translate(m) && m@
                == crate::translator::openai_compatible::missing_key_message(),
            Some(k) => r matches Ok(
                TranslatorPlan::Chat {
                    provider,
                    base_url,
                    model,
                    encrypted_api_key,
                    key_purpose,
                    timeout_secs,
                },
            ) && provider == profile.provider && base_url@ == profile.base_url@ && model@
                == profile.model@ && encrypted_api_key@ == k@ && key_purpose@
                == api_key_purpose_text(profile.id@) && timeout_secs == profile.timeout_secs,
        },
{
    match profile.provider {
        TranslatorProvider::Google => Ok(TranslatorPlan::GoogleFree),
        _ => match &profile.encrypted_api_key {
            None => Err(AppError::Translate(owned("API Key 缺失"))),
            Some(k) => Ok(
                TranslatorPlan::Chat {
                    provider: profile.provider,
                    base_url: profile.base_url.clone(),
                    model: profile.model.clone(),
                    encrypted_api_key: k.clone(),
                    key_purpose: api_key_purpose(profile.id.as_str()),
                    timeout_secs: profile.timeout_secs,
                },
            ),
        },
    }
}

} // verus!
