//! Per-instance configuration: the target address, the window size and the
//! window position, together with the rules for refreshing them from the
//! host's settings.
//!
//! A refresh hands over one `Option` per key: `None` means the host had
//! nothing usable for that key (the read failed or the key is absent), and
//! the field keeps its previous value.  The defaults match a fresh instance
//! before the first refresh.

use vstd::prelude::*;

verus! {

/// Mathematical value of a [`PluginConfig`].
pub struct ConfigView {
    pub url: Seq<char>,
    pub width: u32,
    pub height: u32,
    pub x: i32,
    pub y: i32,
}

/// The configuration fields read from the host at Initialize and Reload.
pub struct PluginConfig {
    /// Address loaded into the UI runtime.
    pub url: String,
    /// Window width in pixels.
    pub width: u32,
    /// Window height in pixels.
    pub height: u32,
    /// Horizontal position offset in pixels.
    pub x: i32,
    /// Vertical position offset in pixels.
    pub y: i32,
}

impl View for PluginConfig {
    type V = ConfigView;

    open spec fn view(&self) -> ConfigView {
        ConfigView {
            url: self.url@,
            width: self.width,
            height: self.height,
            x: self.x,
            y: self.y,
        }
    }
}

/// The configuration a fresh instance starts from.
pub open spec fn spec_default_config() -> ConfigView {
    ConfigView { url: "https://example.com"@, width: 300, height: 200, x: 0, y: 0 }
}

/// What one refresh found in the host's settings, one entry per key.
/// `None` leaves the corresponding field unchanged.
pub struct ConfigReads {
    pub url: Option<String>,
    pub width: Option<u32>,
    pub height: Option<u32>,
    pub x: Option<i32>,
    pub y: Option<i32>,
}

/// Mathematical value of a [`ConfigReads`].
pub struct ConfigReadsView {
    pub url: Option<Seq<char>>,
    pub width: Option<u32>,
    pub height: Option<u32>,
    pub x: Option<i32>,
    pub y: Option<i32>,
}

impl View for ConfigReads {
    type V = ConfigReadsView;

    open spec fn view(&self) -> ConfigReadsView {
        ConfigReadsView {
            url: match self.url {
                Some(u) => Some(u@),
                None => None,
            },
            width: self.width,
            height: self.height,
            x: self.x,
            y: self.y,
        }
    }
}

/// A refresh takes each value the host offered and keeps the old one
/// where the host offered none.
pub open spec fn spec_load(c: ConfigView, r: ConfigReadsView) -> ConfigView {
    ConfigView {
        url: if r.url is Some { r.url->0 } else { c.url },
        width: if r.width is Some { r.width->0 } else { c.width },
        height: if r.height is Some { r.height->0 } else { c.height },
        x: if r.x is Some { r.x->0 } else { c.x },
        y: if r.y is Some { r.y->0 } else { c.y },
    }
}

impl PluginConfig {
    /// Refresh the fields from one round of host reads: a key the host
    /// answered overwrites the field, a missing key leaves it unchanged.
    pub fn load_data(&mut self, reads: ConfigReads)
        ensures
            final(self)@ == spec_load(old(self)@, reads@),
    {
        match reads.url {
            Some(u) => {
                self.url = u;
            },
            None => {},
        }
        match reads.width {
            Some(w) => {
                self.width = w;
            },
            None => {},
        }
        match reads.height {
            Some(h) => {
                self.height = h;
            },
            None => {},
        }
        match reads.x {
            Some(x) => {
                self.x = x;
            },
            None => {},
        }
        match reads.y {
            Some(y) => {
                self.y = y;
            },
            None => {},
        }
    }
}

impl Default for PluginConfig {
    /// A fresh instance points at the placeholder address with a
    /// 300 by 200 window at the origin.
    fn default() -> (c: PluginConfig)
        ensures
            c@ == spec_default_config(),
    {
        PluginConfig {
            url: String::from_str("https://example.com"),
            width: 300,
            height: 200,
            x: 0,
            y: 0,
        }
    }
}

/// One direct OS-level window placement call, ready to issue: the window to
/// move and the rectangle to move it to.
#[derive(Clone, Copy, PartialEq, Eq, Structural, Debug)]
pub struct LayoutCall {
    pub hwnd: i64,
    pub x: i32,
    pub y: i32,
    pub width: u32,
    pub height: u32,
}

/// The placement call a configuration asks for on a given window.
pub open spec fn spec_layout_call(hwnd: i64, c: ConfigView) -> LayoutCall {
    LayoutCall { hwnd, x: c.x, y: c.y, width: c.width, height: c.height }
}

/// Decide the placement call for one host tick: once the worker's window
/// handle is known, place that window at the configured rectangle; before
/// the handshake has delivered a handle, do nothing.
pub fn reposition(hwnd: Option<i64>, config: &PluginConfig) -> (call: Option<LayoutCall>)
    ensures
        call == match hwnd {
            Some(h) => Some(spec_layout_call(h, config@)),
            None => None::<LayoutCall>,
        },
{
    match hwnd {
        Some(h) => Some(
            LayoutCall {
                hwnd: h,
                x: config.x,
                y: config.y,
                width: config.width,
                height: config.height,
            },
        ),
        None => None,
    }
}

} // verus!
