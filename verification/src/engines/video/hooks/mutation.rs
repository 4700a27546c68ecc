//! The script that reports video elements added to the page to the console.

use vstd::prelude::*;

verus! {

/// The script text.
pub const MUTATION_HOOK: &'static str = r#"
(function(){
    if (window.__np_mutation_hooked) return;
    window.__np_mutation_hooked = true;

    var observer = new MutationObserver(function(mutations) {
        mutations.forEach(function(mutation) {
            mutation.addedNodes.forEach(function(node) {
                if (node.tagName === 'VIDEO') {
                    console.log(JSON.stringify({type:'np-hook',event:'mutation_video_added',src:node.currentSrc||node.src||''}));
                }
                // 递归检查子节点
                if (node.querySelectorAll) {
                    var videos = node.querySelectorAll('video');
                    videos.forEach(function(v) {
                        console.log(JSON.stringify({type:'np-hook',event:'mutation_video_added',src:v.currentSrc||v.src||''}));
                    });
                }
            });
        });
    });

    observer.observe(document.documentElement, {
        childList: true,
        subtree: true
    });

    console.log(JSON.stringify({type:'np-hook',event:'hooked',target:'MutationObserver'}));
})()
"#;

/// The script injected into each page.
pub fn hook_script() -> (r: &'static str)
    ensures
        r@ == MUTATION_HOOK@,
{
    MUTATION_HOOK
}

} // verus!
