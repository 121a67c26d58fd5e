# xembsni

Legacy X11 system-tray icons (the XEMBED tray of Wine, Proton and other X11
programs) as StatusNotifierItems, for bars that speak only the latter.

The daemon owns the `_NET_SYSTEM_TRAY_S<n>` selection of a screen, embeds the
icons that clients dock, captures what they paint, and publishes each of them on
the session bus under a name of its own. Clicks, scrolls and context menus go
back to the icon as synthetic pointer events.

## Layout

- `src/` is the library: every decision of the daemon, as functions of plain
  values, verified with Verus. It never talks to a server. A function that needs
  an answer says what to ask and what it waits for, and is resumed with the
  reply; its contract holds for every reply.
- `app/` is the daemon around it: the X11 connection, the session bus, signals,
  threads and logging.
- `tests/` runs the library, much of it against a small make-believe X server.

## What is proved

Each function's contract says exactly what it returns. Beyond that, the functions
named `law_...` state what holds of the whole, among them:

- a selection that another tray owns is left alone;
- over a whole run, what the host reports tells exactly which icons it holds: each
  is added, changes and is removed, and the loss of the selection comes last;
- a window that asks to be docked is held and reported, where the server goes along;
- a docked and lost icon leaves no trace, and every icon that is left at the end
  goes back to the root window before its container goes;
- a capture comes first, and `_NET_WM_ICON` only where it brings nothing;
- the server's byte order does not matter, only the alpha of captured pixels is ever touched, and a complete icon is never
  made invisible;
- the bridge has one item for each icon, and no two items share a name;
- a gesture sends its clicks to the icon it is about and to no other window.

What the library takes on trust are four calls into other code: `value32` and
`as_data32` of x11rb, `OwnedObjectPath::try_from` of zvariant, and
`String::from_utf8_lossy` of the standard library, each behind a wrapper whose
comment says what is claimed of it. Besides, values are written to logs through the
standard library's `Formatter` and `DebugStruct`, of which nothing is claimed.

## Limits

- Only visuals of 24 or 32 bits per pixel are read; others give a blank image.
- Interactions are sent events. A few programs ignore those.
