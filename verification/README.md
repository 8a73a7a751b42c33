# footage

Editing rules of a video trimming and conversion tool, verified with Verus.

`src/` is the library:

- `orientation` – the eight frame orientations as the dihedral group of the
  square, and the turn and mirror operations with their group laws.
- `crop` – how crop proportions follow turns and mirrors, which edge or corner
  a pointer grabs, cursors, and arrow keys on corner handles.
- `timeline` – playback position, duration and kept range in milliseconds,
  and how drags and arrow keys move them.
- `preview` – the state of a loaded video (shown dimensions, orientation,
  kept range, muting, end of playback) and the preview's operations.
- `profiles` – output containers, their video and audio encodings, names and
  media types, and the ordered list of offered containers.
- `info` – dimensions and frame rates, reading the media probe's report, and
  output sizes.
- `text` – `trim`, `split`, `char::is_whitespace` and `u32::from_str` on
  character sequences, with their specifications.

`app/` is the desktop program around it: widgets, media pipelines, dialogs,
and everything that depends on floating point or on the media framework.
