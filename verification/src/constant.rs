//! Window sizes, labels and the script injected into every page.

use vstd::prelude::*;

verus! {

/// Height of the custom title bar, in logical pixels.
pub const TITLEBAR_HEIGHT: u32 = 28;

/// Height of the ask bar, in logical pixels.
pub const ASK_HEIGHT: u32 = 120;

/// Label of the settings window.
pub const WINDOW_SETTINGS: &'static str = "settings";

/// Script run in the main page: reports navigations to the title bar and
/// opens links that target another frame in a new tab.
pub const INIT_SCRIPT: &'static str = r#"
window.addEventListener('DOMContentLoaded', function() {
    function handleUrlChange() {
        const url = window.location.href;
        if (url !== 'about:blank') {
            console.log('URL changed:', url);
            window.__TAURI__.webviewWindow.WebviewWindow.getByLabel('titlebar').emit('navigation:change', { url });
        }
    }

    function handleLinkClick(event) {
        const target = event.target;
        if (target.tagName === 'A' && target.target && target.target !== '_blank') {
            target.target = '_blank';
        }
    }

    document.addEventListener('click', handleLinkClick, true);
    window.addEventListener('popstate', handleUrlChange);
    window.addEventListener('pushState', handleUrlChange);
    window.addEventListener('replaceState', handleUrlChange);

    const originalPushState = history.pushState;
    const originalReplaceState = history.replaceState;

    history.pushState = function() {
        originalPushState.apply(this, arguments);
        console.log('pushState called');
        handleUrlChange();
    };

    history.replaceState = function() {
        originalReplaceState.apply(this, arguments);
        console.log('replaceState called');
        handleUrlChange();
    };

    handleUrlChange();
});
"#;

} // verus!
