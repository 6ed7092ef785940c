# ratzilla_widgets

Overlay widgets for terminal user interfaces that run in the browser: images,
videos and procedural graphics painted over the text-cell grid by a 2D-canvas or
WebGL2 backend.

* `src/` is the verified library. It holds the widgets' state and decision rules:
  the draw queues, the image cache (loading, ready, failed), the texture caches,
  the per-id video instance registry with its source generations, the routing of
  render hooks to a backend, the cell geometry of the placeholder fill, and the
  WebGL constants the renderers choose between. Every function carries a contract
  and the library's laws are proved as proof functions.
* `app/` is the browser side: shared `Rc<RefCell<..>>` layer handles, the render
  hooks that issue DOM, 2D-canvas and WebGL calls, asynchronous image loading and
  video playback, and the floating-point placement of images and videos.
* `tests/` exercises the library on concrete values.
