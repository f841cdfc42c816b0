# win32ui

The model behind a set of themed Win32 controls, verified with Verus:
what each control's window is created with and sized to, how it answers the
messages it receives, how it paints from theme tokens, and the state its
widgets keep (list-view selection and columns, grid layout and navigation,
scroll hosts, menus, progress bars, text conversion for native edits).

Layout:

- `src/` — the verified library. `controls/` holds one module per control;
  `custom/` is the host for application-defined widgets, `grid_view/`,
  `listview/` and `menu/` are split by concern (layout, model, theme,
  painting, events, accessibility).
- `tests/` — behaviour tests on concrete values.
- `app/` — the floating-point helpers the verified library does not hold.

The window procedures, the native calls and the renderers sit outside this
crate: each library function takes the values a message carries and returns
what the window must do.
