//! The scripts that the page-load probe runs in the page: one watches the
//! largest contentful paint, the other gathers the timing and resource
//! figures as JSON.

use vstd::prelude::*;

verus! {

/// The script that starts watching the largest contentful paint.
pub const LCP_INJECT_JS: &'static str = r#"(function(){
            window.__perfData = { lcp: 0 };
            try {
                new PerformanceObserver(function(list){
                    var entries = list.getEntries();
                    if (entries.length > 0) {
                        var last = entries[entries.length - 1];
                        window.__perfData.lcp = last.renderTime || last.loadTime || 0;
                    }
                }).observe({ type: 'largest-contentful-paint', buffered: true });
            } catch(e) { window.__perfData.lcpError = e.message; }
        })()"#;

/// The script that gathers the navigation timing, paint and resource figures
/// and returns them as a JSON string.
pub const COLLECT_JS: &'static str = r#"JSON.stringify((function(){
            var nav = performance.getEntriesByType('navigation')[0] || {};
            var paints = performance.getEntriesByType('paint');
            var resources = performance.getEntriesByType('resource');
            var startTime = nav.startTime || 0;

            // Paint metrics
            var fp = paints.find(function(p){return p.name==='first-paint'});
            var fcp = paints.find(function(p){return p.name==='first-contentful-paint'});
            var fpMs = fp ? fp.startTime : 0;
            var fcpMs = fcp ? fcp.startTime : 0;
            var lcpMs = (window.__perfData && window.__perfData.lcp) || 0;

            // Navigation Timing
            var dnsMs = Math.max(0, (nav.domainLookupEnd||0) - (nav.domainLookupStart||0));
            var connectMs = Math.max(0, (nav.connectEnd||0) - (nav.connectStart||0));
            var ttfbMs = Math.max(0, (nav.responseStart||0) - (nav.requestStart||0));
            var dclMs = Math.max(0, (nav.domContentLoadedEventEnd||0) - startTime);
            var loadEndMs = nav.loadEventEnd || nav.domComplete || 0;
            var httpStatus = nav.responseStatus || 0;

            // 资源统计 (含主文档)
            var mainSize = nav.transferSize || nav.encodedBodySize || 0;
            var r = { count: 1, total: mainSize, html: mainSize, css: 0, js: 0, img: 0, font: 0, media: 0, failed: 0 };
            for (var i=0; i<resources.length; i++) {
                var e = resources[i];
                var s = e.transferSize || e.encodedBodySize || 0;
                r.total += s; r.count++;
                if (/\.html|\.htm|text\/html/.test(e.name)) r.html += s;
                else if (/\.css|text\/css/.test(e.name)) r.css += s;
                else if (/\.js|text\/javascript/.test(e.name)) r.js += s;
                else if (/\.png|\.jpg|\.gif|\.svg|\.webp|\.ico|image\//.test(e.name)) r.img += s;
                else if (/\.woff|\.ttf|\.otf|font\//.test(e.name)) r.font += s;
                else r.media += s;
            }

            // 衍生指标
            var siteSizeKB = r.total / 1024;
            var le = loadEndMs || 1;
            var loadSec = Math.max(0.001, le / 1000);
            var avgSpeed = r.total > 0 ? (r.total * 8) / loadSec / 1000 : 0;
            var responseMs = nav.responseStart || 0;
            var downloadSec = Math.max(0.001, (le - responseMs) / 1000);
            var totalSpeed = r.total > 0 ? (r.total * 8) / downloadSec / 1000 : 0;
            var fcpTime = fcpMs || lcpMs || (nav.domContentLoadedEventEnd||0);
            var resBeforeFCP = fcpTime > 0 ? resources.filter(function(rr){return (rr.responseEnd||0) <= fcpTime;}).length + 1 : r.count;
            var firstScreenRatio = r.count > 0 ? Math.min(100, Math.round(resBeforeFCP / r.count * 1000) / 10) : 0;

            return {
                fp: fpMs, fcp: fcpMs, lcp: lcpMs, dcl: dclMs, load: loadEndMs,
                dns: dnsMs, connect: connectMs, ttfb: ttfbMs, httpStatus: httpStatus,
                count: r.count, total: r.total, html: r.html, css: r.css, js: r.js,
                img: r.img, font: r.font, media: r.media, failed: r.failed,
                siteSizeKB: Math.round(siteSizeKB * 10) / 10,
                avgSpeedKbps: Math.round(avgSpeed * 10) / 10,
                totalSpeedKbps: Math.round(totalSpeed * 10) / 10,
                firstScreenRatio: firstScreenRatio
            };
        })())"#;

/// The scripts of the page-load probe.
pub struct NetworkCollector;

impl NetworkCollector {
    /// The collector.
    pub fn new() -> (r: NetworkCollector) {
        NetworkCollector
    }

    /// The script that gathers the page's figures.
    pub fn collect_js() -> (r: &'static str)
        ensures
            r@ == COLLECT_JS@,
    {
        COLLECT_JS
    }

    /// The script that starts watching the largest contentful paint.
    pub fn lcp_inject_js() -> (r: &'static str)
        ensures
            r@ == LCP_INJECT_JS@,
    {
        LCP_INJECT_JS
    }
}

} // verus!
