//! What the toasts say.

use crate::effect::Toast;
use crate::text::decimal;
use vstd::prelude::*;

verus! {

/// How many seconds a toast is shown for.
pub const TOAST_TIMEOUT: u64 = 2;

/// How many seconds a toast is shown for while something is under way.
pub const TOAST_TIMEOUT_LONG: u64 = 3600;

/// A toast as a page shows it.
#[derive(Debug, PartialEq, Eq)]
pub struct ToastContent {
    pub header_text: String,
    pub message: String,
    pub level: String,
    /// How many seconds the toast is shown for.
    pub duration: u64,
    /// Whether the toast is shown once the page has been loaded again, rather than at once.
    pub after_reload: bool,
}

/// A [`ToastContent`] with its texts as sequences.
#[verifier::ext_equal]
pub struct ToastContentView {
    pub header_text: Seq<char>,
    pub message: Seq<char>,
    pub level: Seq<char>,
    pub duration: u64,
    pub after_reload: bool,
}

impl View for ToastContent {
    type V = ToastContentView;

    open spec fn view(&self) -> ToastContentView {
        ToastContentView {
            header_text: self.header_text@,
            message: self.message@,
            level: self.level@,
            duration: self.duration,
            after_reload: self.after_reload,
        }
    }
}

/// What a toast says.
pub open spec fn toast_content(toast: Toast) -> ToastContentView {
    match toast {
        Toast::HotPatched { ms_elapsed } => ToastContentView {
            header_text: "Hot-patch success!"@,
            message: "App successfully patched in "@ + crate::text::decimal_digits(
                ms_elapsed as nat,
            ) + " ms"@,
            level: "success"@,
            duration: TOAST_TIMEOUT,
            after_reload: false,
        },
        Toast::Rebuilt => ToastContentView {
            header_text: "Successfully rebuilt."@,
            message: "Your app was rebuilt successfully and without error."@,
            level: "success"@,
            duration: TOAST_TIMEOUT,
            after_reload: true,
        },
        Toast::Rebuilding => ToastContentView {
            header_text: "Your app is being rebuilt."@,
            message: "A non-hot-reloadable change occurred and we must rebuild."@,
            level: "info"@,
            duration: TOAST_TIMEOUT_LONG,
            after_reload: false,
        },
        Toast::BuildFailed => ToastContentView {
            header_text: "Oops! The build failed."@,
            message: "We tried to rebuild your app, but something went wrong."@,
            level: "error"@,
            duration: TOAST_TIMEOUT_LONG,
            after_reload: false,
        },
        Toast::HotPatching => ToastContentView {
            header_text: "Hot-patching app..."@,
            message: "Hot-patching modified Rust code."@,
            level: "info"@,
            duration: TOAST_TIMEOUT_LONG,
            after_reload: false,
        },
    }
}

impl Toast {
    /// What the toast says.
    pub fn content(&self) -> (content: ToastContent)
        ensures
            content@ == toast_content(*self),
    {
        match self {
            Toast::HotPatched { ms_elapsed } => ToastContent {
                header_text: "Hot-patch success!".to_owned(),
                message: "App successfully patched in ".to_owned().concat(
                    decimal(*ms_elapsed).as_str(),
                ).concat(" ms"),
                level: "success".to_owned(),
                duration: TOAST_TIMEOUT,
                after_reload: false,
            },
            Toast::Rebuilt => ToastContent {
                header_text: "Successfully rebuilt.".to_owned(),
                message: "Your app was rebuilt successfully and without error.".to_owned(),
                level: "success".to_owned(),
                duration: TOAST_TIMEOUT,
                after_reload: true,
            },
            Toast::Rebuilding => ToastContent {
                header_text: "Your app is being rebuilt.".to_owned(),
                message: "A non-hot-reloadable change occurred and we must rebuild.".to_owned(),
                level: "info".to_owned(),
                duration: TOAST_TIMEOUT_LONG,
                after_reload: false,
            },
            Toast::BuildFailed => ToastContent {
                header_text: "Oops! The build failed.".to_owned(),
                message: "We tried to rebuild your app, but something went wrong.".to_owned(),
                level: "error".to_owned(),
                duration: TOAST_TIMEOUT_LONG,
                after_reload: false,
            },
            Toast::HotPatching => ToastContent {
                header_text: "Hot-patching app...".to_owned(),
                message: "Hot-patching modified Rust code.".to_owned(),
                level: "info".to_owned(),
                duration: TOAST_TIMEOUT_LONG,
                after_reload: false,
            },
        }
    }
}

/// What went well is shown for two seconds; what failed or is under way is shown until something
/// replaces it, which is an hour at most. Only that the application was rebuilt is said once the
/// page has been loaded again.
pub proof fn toasts_say_how_it_went(toast: Toast)
    ensures
        ({
            let content = toast_content(toast);
            let went_well = toast is HotPatched || toast is Rebuilt;
            &&& content.level == if went_well {
                "success"@
            } else if toast is BuildFailed {
                "error"@
            } else {
                "info"@
            }
            &&& content.duration == if went_well {
                2int
            } else {
                3600int
            }
            &&& content.after_reload <==> toast is Rebuilt
        }),
{
}

/// A patch is reported with how many milliseconds it took, written in decimal.
pub proof fn a_patch_is_reported_with_its_time(ms_elapsed: u64)
    ensures
        ({
            let message = toast_content(Toast::HotPatched { ms_elapsed }).message;
            let from: int = "App successfully patched in "@.len() as int;
            let to: int = message.len() - " ms"@.len();
            &&& from < to
            &&& message.take(from) == "App successfully patched in "@
            &&& message.skip(to) == " ms"@
            &&& crate::text::decimal_value(message.subrange(from, to)) == ms_elapsed
        }),
{
    let digits = crate::text::decimal_digits(ms_elapsed as nat);
    let start = "App successfully patched in "@;
    let end = " ms"@;
    let message = toast_content(Toast::HotPatched { ms_elapsed }).message;
    crate::text::decimal_digits_stand_for_the_number(ms_elapsed as nat);
    assert(message == start + digits + end);
    assert(message.take(start.len() as int) == start);
    assert(message.skip(message.len() - end.len()) == end);
    assert(message.subrange(start.len() as int, message.len() - end.len()) == digits);
}

/// The texts of the toasts.
pub proof fn toasts_have_their_texts(toast: Toast)
    ensures
        ({
            let content = toast_content(toast);
            &&& toast is HotPatched ==> content.header_text == "Hot-patch success!"@
            &&& toast is Rebuilt ==> content.header_text == "Successfully rebuilt."@
                && content.message == "Your app was rebuilt successfully and without error."@
            &&& toast is Rebuilding ==> content.header_text == "Your app is being rebuilt."@
                && content.message
                == "A non-hot-reloadable change occurred and we must rebuild."@
            &&& toast is BuildFailed ==> content.header_text == "Oops! The build failed."@
                && content.message == "We tried to rebuild your app, but something went wrong."@
            &&& toast is HotPatching ==> content.header_text == "Hot-patching app..."@
                && content.message == "Hot-patching modified Rust code."@
        }),
{
}

} // verus!
