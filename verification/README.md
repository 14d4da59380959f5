# gifdeck

A GIF picker for the terminal: it searches GIPHY and KLIPY, keeps favorites on a
self-hosted server or in a local file, and shows results and favorites as one grid
of animated previews.

`src/` is the core of the picker, verified with Verus. It reads and writes nothing:
what has to be fetched, run or drawn is described by plain values, and what came of
it is handed back as plain values. `app/` is the program around it.

| module | holds |
| --- | --- |
| `app`, `keys` | the state of the picker and its keymap |
| `actions`, `work` | queued work, step by step: what to do outside, what the reply changes |
| `pager`, `grid`, `item` | pages, the arithmetic of the grid, the GIFs to pick |
| `screen`, `draw`, `layout`, `lines`, `geometry` | what is on the screen, and where |
| `preview`, `decode`, `encode` | the bounded cache of previews, the decoding of GIFs into them, and their form for the terminal |
| `providers`, `favs`, `store` | search providers, the favorites server, the local store |
| `config`, `session`, `clipboard`, `text` | configuration, the command line and the start, clipboard helpers, texts |
| `laws` | what holds of the picker whatever is pressed and whatever comes in |

Contracts speak of views: `PickerView` of the picker, `CacheView` of the preview
cache, `PagerView` of a pager. Public proof functions named `lemma_..` state what
holds across operations. What is taken from outside without proof is marked
`assume_specification`, `external_body` or `external_type_specification`, with a
comment that says what is claimed.
