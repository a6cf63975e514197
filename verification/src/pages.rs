//! The pages that the browser serves itself.

use vstd::prelude::*;

verus! {

/// The text of the home page.
pub const HOME_PAGE: &'static str = r#"
    <div style="font-family: -apple-system, BlinkMacSystemFont, 'Segoe UI', 'SF Pro Display', Roboto, sans-serif; background: #0a0a0a; color: #ffffff; min-height: 100vh; padding: 60px 40px; text-align: center;">
        <div style="max-width: 800px; margin: 0 auto;">
            <div style="margin-bottom: 40px;">
                <div style="font-size: 64px; margin-bottom: 20px; color: #00d4aa;">🛡️</div>
                <h1 style="font-size: 48px; font-weight: 700; margin-bottom: 16px; background: linear-gradient(135deg, #ffffff 0%, #00d4aa 100%); -webkit-background-clip: text; -webkit-text-fill-color: transparent; background-clip: text;">SW3DO Browser</h1>
                <p style="font-size: 20px; color: rgba(255, 255, 255, 0.7); margin-bottom: 40px;">Private, Fast, Secure - Your Digital Freedom</p>
            </div>
            
            <div style="display: grid; grid-template-columns: repeat(auto-fit, minmax(250px, 1fr)); gap: 24px; margin-bottom: 40px;">
                <div style="padding: 24px; background: rgba(255, 255, 255, 0.05); border-radius: 16px; border: 1px solid rgba(255, 255, 255, 0.1);">
                    <div style="font-size: 32px; margin-bottom: 16px;">🔒</div>
                    <h3 style="color: #00d4aa; margin-bottom: 12px; font-size: 18px;">Zero Tracking</h3>
                    <p style="color: rgba(255, 255, 255, 0.8); font-size: 14px; line-height: 1.6;">No cookies, no history, no data collection. Browse with complete privacy.</p>
                </div>
                
                <div style="padding: 24px; background: rgba(255, 255, 255, 0.05); border-radius: 16px; border: 1px solid rgba(255, 255, 255, 0.1);">
                    <div style="font-size: 32px; margin-bottom: 16px;">⚡</div>
                    <h3 style="color: #00d4aa; margin-bottom: 12px; font-size: 18px;">Lightning Fast</h3>
                    <p style="color: rgba(255, 255, 255, 0.8); font-size: 14px; line-height: 1.6;">Optimized for speed with intelligent caching and minimal resource usage.</p>
                </div>
                
                <div style="padding: 24px; background: rgba(255, 255, 255, 0.05); border-radius: 16px; border: 1px solid rgba(255, 255, 255, 0.1);">
                    <div style="font-size: 32px; margin-bottom: 16px;">🔍</div>
                    <h3 style="color: #00d4aa; margin-bottom: 12px; font-size: 18px;">Smart Search</h3>
                    <p style="color: rgba(255, 255, 255, 0.8); font-size: 14px; line-height: 1.6;">Google-powered search with enhanced privacy and ad-blocking.</p>
                </div>
            </div>
            
            <div style="background: rgba(255, 255, 255, 0.03); border-radius: 16px; padding: 32px; border: 1px solid rgba(255, 255, 255, 0.08);">
                <h2 style="color: #ffffff; margin-bottom: 20px; font-size: 24px;">Why Choose SW3DO?</h2>
                <div style="text-align: left; max-width: 600px; margin: 0 auto;">
                    <div style="margin-bottom: 16px; display: flex; align-items: center; gap: 12px;">
                        <span style="color: #00d4aa; font-size: 18px;">✓</span>
                        <span style="color: rgba(255, 255, 255, 0.9);">Built with Tauri for maximum performance and security</span>
                    </div>
                    <div style="margin-bottom: 16px; display: flex; align-items: center; gap: 12px;">
                        <span style="color: #00d4aa; font-size: 18px;">✓</span>
                        <span style="color: rgba(255, 255, 255, 0.9);">No telemetry, analytics, or user profiling</span>
                    </div>
                    <div style="margin-bottom: 16px; display: flex; align-items: center; gap: 12px;">
                        <span style="color: #00d4aa; font-size: 18px;">✓</span>
                        <span style="color: rgba(255, 255, 255, 0.9);">Advanced tracker and ad blocking technology</span>
                    </div>
                    <div style="display: flex; align-items: center; gap: 12px;">
                        <span style="color: #00d4aa; font-size: 18px;">✓</span>
                        <span style="color: rgba(255, 255, 255, 0.9);">Modern, minimalist interface inspired by Zen Browser</span>
                    </div>
                </div>
            </div>
        </div>
    </div>
    "#;

/// The home page, as HTML.
pub fn generate_home_page() -> (page: String)
    ensures
        page@ == HOME_PAGE@,
{
    HOME_PAGE.to_string()
}

} // verus!
