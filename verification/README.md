# iced_window_chrome

Native window-chrome patches for `iced` windows, with the decisions verified
in Verus.

- `src/` is the verified library. For a set of `ChromeSettings` it computes
  the Win32 window style and DWM attribute writes (`windows`), the AppKit
  style mask, titlebar and traffic-light plan (`macos`), the X11
  `_MOTIF_WM_HINTS` words (`linux`), and which native patch a window gets
  from its raw handles (`native`). Laws about these computations are public
  proof functions next to them.
- `app/` talks to `iced` (tasks, subscriptions, window handles) and to the
  native window systems (`windows-sys`, `objc2`, `x11rb`), and performs what
  the library decides. Floating-point geometry of the macOS traffic lights
  lives there too.
- `tests/` runs the library on concrete values.

Colors are carried as the bit patterns of their `f32` channels (`Color`), and
macOS lengths as the bit patterns of their `f64` values; both compare equal as
the floats do. `app/` converts from and to `iced` colors and plain `f64`
lengths, and rounds colors to the 8-bit channels that DWM is given.
