//! The script that reports `fetch` and `XMLHttpRequest` requests to the
//! console.

use vstd::prelude::*;

verus! {

/// The script text.
pub const NETWORK_API_HOOK: &'static str = r#"
(function(){
    if (window.__np_fetch_hooked) return;
    window.__np_fetch_hooked = true;

    // Hook fetch
    var originalFetch = window.fetch;
    window.fetch = function(input, init) {
        var url = typeof input === 'string' ? input : (input.url || input.href || '');
        console.log(JSON.stringify({type:'np-hook',event:'fetch',url:url}));
        return originalFetch.apply(this, arguments);
    };

    // Hook XMLHttpRequest
    var OriginalXHR = window.XMLHttpRequest;
    window.XMLHttpRequest = function() {
        var xhr = new OriginalXHR();
        var originalOpen = xhr.open;
        xhr.open = function(method, url) {
            xhr._np_url = url;
            return originalOpen.apply(this, arguments);
        };
        var originalSend = xhr.send;
        xhr.send = function() {
            console.log(JSON.stringify({type:'np-hook',event:'xhr',url:xhr._np_url||''}));
            return originalSend.apply(this, arguments);
        };
        return xhr;
    };

    console.log(JSON.stringify({type:'np-hook',event:'hooked',target:'fetch+XHR'}));
})()
"#;

/// The script injected into each page.
pub fn hook_script() -> (r: &'static str)
    ensures
        r@ == NETWORK_API_HOOK@,
{
    NETWORK_API_HOOK
}

} // verus!
