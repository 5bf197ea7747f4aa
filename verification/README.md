# iced_tabs

A tab bar for iced applications, with drag-and-drop reordering, close
buttons, tooltips and scrolling. The logic of the tab bar is verified with
Verus; the widget around it is ordinary Rust.

- `src/` — the verified library:
  - `tab_bar.rs`: the tab list (ids, labels, tooltips, statuses, the active
    tab, the icon position) and `Position`;
  - `tab.rs`: `TabLabel`, the interaction state machine of the tab content
    (selection, closing, dragging, statuses, tooltip tracking), the drop
    index of a dragged tab and the order tabs are shown in while dragging;
  - `search.rs`: first and last set flag of a sequence;
  - `status.rs`, `style.rs`: the status tabs are styled by.
- `app/` — the iced widget: layout, drawing, styling, scrolling and the
  floating-point geometry that feeds the state machine.
- `tests/` — tests of the library.
