//! The recognition session: which model folder is selected, whether its model
//! is loaded, and what each recognised file yields.
use vstd::prelude::*;

use crate::text::{append_str, chars_eq, chars_of, string_of};

verus! {

/// The selected model folder and the model loaded from it, if any.
pub struct ModelCache<M> {
    pub dir: String,
    pub model: Option<M>,
}

impl<M> ModelCache<M> {
    /// No folder selected, nothing loaded.
    pub fn new() -> (r: Self)
        ensures
            r.dir@ == Seq::<char>::empty(),
            r.model is None,
    {
        ModelCache { dir: String::new(), model: None }
    }

    /// Selects a model folder. A loaded model is dropped only when the folder
    /// changes; selecting the same folder again changes nothing.
    pub fn set_model_dir(&mut self, dir: String)
        ensures
            final(self).dir@ == dir@,
            old(self).dir@ != dir@ ==> final(self).model is None,
            old(self).dir@ == dir@ ==> final(self).model == old(self).model,
    {
        let same = chars_eq(&chars_of(self.dir.as_str()), &chars_of(dir.as_str()));
        if !same {
            self.dir = dir;
            self.model = None;
        }
    }

    /// Keeps a freshly loaded model.
    pub fn set_model(&mut self, model: M)
        ensures
            final(self).dir@ == old(self).dir@,
            final(self).model == Some(model),
    {
        self.model = Some(model);
    }
}

/// A model can only be loaded from a selected folder.
pub fn check_model_dir(dir: &str) -> (r: Result<(), String>)
    ensures
        dir@.len() == 0 ==> (r matches Err(e) && e@ == "путь к модели не указан"@),
        dir@.len() > 0 ==> r is Ok,
{
    if dir.unicode_len() == 0 {
        Err(String::from_str("путь к модели не указан"))
    } else {
        Ok(())
    }
}

/// The answer to a successful model load.
pub fn load_success_message(dir: &str) -> (r: String)
    ensures
        r@ == "модель успешно загружена из "@ + dir@,
{
    let mut v = chars_of("модель успешно загружена из ");
    append_str(&mut v, dir);
    string_of(&v)
}

/// How the recognition of one file ended.
pub enum FileOutcome {
    /// The user cancelled before or during the file.
    Cancelled,
    /// The recognised text (possibly empty).
    Text(String),
    /// The error message.
    Failed(String),
}

/// The entry for one file in the list of results: the text, `[ОТМЕНЕНО]`
/// for a cancelled file, or `[ОШИБКА: <message>]`.
pub open spec fn spec_file_result(o: FileOutcome) -> Seq<char> {
    match o {
        FileOutcome::Cancelled => "[ОТМЕНЕНО]"@,
        FileOutcome::Text(t) => t@,
        FileOutcome::Failed(e) => "[ОШИБКА: "@ + e@ + "]"@,
    }
}

/// The entry for one file in the list of results.
pub fn file_result(o: FileOutcome) -> (r: String)
    ensures
        r@ == spec_file_result(o),
{
    match o {
        FileOutcome::Cancelled => String::from_str("[ОТМЕНЕНО]"),
        FileOutcome::Text(t) => t,
        FileOutcome::Failed(e) => {
            let mut v = chars_of("[ОШИБКА: ");
            append_str(&mut v, e.as_str());
            append_str(&mut v, "]");
            string_of(&v)
        },
    }
}

/// The outcome of a file: a cancellation seen after the recognition wins
/// over its result.
pub fn outcome_after_run(cancelled: bool, result: Result<String, String>) -> (r: FileOutcome)
    ensures
        cancelled ==> r is Cancelled,
        !cancelled ==> match result {
            Ok(t) => r matches FileOutcome::Text(x) && x == t,
            Err(e) => r matches FileOutcome::Failed(x) && x == e,
        },
{
    if cancelled {
        return FileOutcome::Cancelled;
    }
    match result {
        Ok(t) => FileOutcome::Text(t),
        Err(e) => FileOutcome::Failed(e),
    }
}

} // verus!
