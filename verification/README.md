# mc_app

The decisions of a Minecraft launcher's window, verified with Verus: what
the window is told, in which order things happen, and what a request or a
report means, apart from the window system, the network and the disk.

- `src/` is the library. Each module states its contracts over spec
  functions and proves them; the laws that span several calls stand as
  public proof functions beside the code they speak of.
- `tests/` runs the library on concrete values.
- `app/` is the program around it: the window framework, the installer,
  the sockets and the clocks, which hand the library plain values.

Several modules exist in an English and a French vocabulary (`brand` and
`marque`, `commands` and `commandes`, `startup` and `demarrage`, ...); the
French ones reuse the English proofs where the rules are the same. The
window's bridge registers the English commands; the development server
answers a command under `/command/` by its English name and under
`/commande/` by its French name, and lists both on its home page.
